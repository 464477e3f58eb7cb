//! The variable-length resolver: materialises the payload of a
//! variable-length or multi-valued property entry from its sub-stream.

use vstd::prelude::*;
use vstd::string::StringExecFns;
use crate::Error;
use crate::bytes::read_of;
use crate::cfbio::{MsgContainer, container_entries, container_streams, stream_bytes};
use crate::guid::{Guid, guid_u128};
use crate::paths::{make_substg_element_name, make_substg_name, substg_element_name, substg_name};
use crate::property_ids::pid_code;
use crate::props::{FixedLengthPropertyEntry, PValue};

verus! {

/// A materialised variable-length property payload.
#[derive(Clone, Debug, PartialEq, Eq)]
pub enum Resolved {
    /// A UTF-16LE string property, decoded.
    Text(String),
    /// A binary or codepage-string property, kept as raw bytes.
    Bytes(Vec<u8>),
    /// A GUID property.
    Guid(Guid),
    /// A multi-valued UTF-16LE string property, decoded element-wise.
    TextList(Vec<String>),
    /// A multi-valued binary or codepage-string property.
    BytesList(Vec<Vec<u8>>),
}

/// The mathematical content of a [`Resolved`].
pub enum ResolvedView {
    Text(Seq<char>),
    Bytes(Seq<u8>),
    Guid(Guid),
    TextList(Seq<Seq<char>>),
    BytesList(Seq<Seq<u8>>),
}

impl View for Resolved {
    type V = ResolvedView;

    open spec fn view(&self) -> ResolvedView {
        match self {
            Resolved::Text(s) => ResolvedView::Text(s@),
            Resolved::Bytes(b) => ResolvedView::Bytes(b@),
            Resolved::Guid(g) => ResolvedView::Guid(*g),
            Resolved::TextList(l) => ResolvedView::TextList(
                l@.map_values(|s: String| s@),
            ),
            Resolved::BytesList(l) => ResolvedView::BytesList(
                l@.map_values(|b: Vec<u8>| b@),
            ),
        }
    }
}

/// The decoded text payload at a property's sub-stream, absent when the
/// stream is.
pub open spec fn single_text_of(
    s: Map<Seq<char>, Seq<u8>>,
    prefix: Seq<char>,
    pid: u16,
    pt: u16,
) -> Result<Option<ResolvedView>, Error> {
    let p = prefix + substg_name(pid, pt);
    if !s.dom().contains(p) {
        Ok(None)
    } else {
        match read_of(s[p]) {
            Ok(t) => Ok(Some(ResolvedView::Text(t))),
            Err(e) => Err(e),
        }
    }
}

/// The raw byte payload at a property's sub-stream, absent when the
/// stream is.
pub open spec fn single_bytes_of(
    s: Map<Seq<char>, Seq<u8>>,
    prefix: Seq<char>,
    pid: u16,
    pt: u16,
) -> Result<Option<ResolvedView>, Error> {
    let p = prefix + substg_name(pid, pt);
    if !s.dom().contains(p) {
        Ok(None)
    } else {
        Ok(Some(ResolvedView::Bytes(s[p])))
    }
}

/// The element payloads of a multi-valued property from element `k` up to
/// `n`; absent as a whole when any element stream is absent.
pub open spec fn multi_bytes_of(
    s: Map<Seq<char>, Seq<u8>>,
    prefix: Seq<char>,
    pid: u16,
    pt: u16,
    n: u32,
    k: u32,
) -> Option<Seq<Seq<u8>>>
    decreases n - k,
{
    if k >= n {
        Some(Seq::<Seq<u8>>::empty())
    } else {
        let p = prefix + substg_element_name(pid, pt, k);
        if !s.dom().contains(p) {
            None
        } else {
            match multi_bytes_of(s, prefix, pid, pt, n, (k + 1) as u32) {
                None => None,
                Some(rest) => Some(seq![s[p]] + rest),
            }
        }
    }
}

/// Element-wise UTF-16LE decoding, failing on the first bad element.
pub open spec fn decode_list_of(items: Seq<Seq<u8>>) -> Result<Seq<Seq<char>>, Error>
    decreases items.len(),
{
    if items.len() == 0 {
        Ok(Seq::<Seq<char>>::empty())
    } else {
        match read_of(items[0]) {
            Err(e) => Err(e),
            Ok(t) => match decode_list_of(items.drop_first()) {
                Err(e) => Err(e),
                Ok(rest) => Ok(seq![t] + rest),
            },
        }
    }
}

/// What a property entry resolves to over the container's stream map,
/// with `prefix` the path of the enclosing storage up to and including
/// its separator.  An absent sub-stream resolves to nothing rather than
/// failing; fixed-width entries carry their value inline and resolve to
/// nothing; multi-valued fixed-width payloads are kept as raw bytes.
pub open spec fn resolve_spec(
    s: Map<Seq<char>, Seq<u8>>,
    prefix: Seq<char>,
    entry: FixedLengthPropertyEntry,
) -> Result<Option<ResolvedView>, Error> {
    let pid = pid_code(entry.property_id);
    match entry.value {
        PValue::String(_) => single_text_of(s, prefix, pid, 0x001F),
        PValue::String8(_) => single_bytes_of(s, prefix, pid, 0x001E),
        PValue::Binary(_) => single_bytes_of(s, prefix, pid, 0x0102),
        PValue::ServerId(_) => single_bytes_of(s, prefix, pid, 0x00FB),
        PValue::Restriction(_) => single_bytes_of(s, prefix, pid, 0x00FD),
        PValue::RuleAction(_) => single_bytes_of(s, prefix, pid, 0x00FE),
        PValue::Guid(_) => {
            let p = prefix + substg_name(pid, 0x0048);
            if !s.dom().contains(p) {
                Ok(None)
            } else if s[p].len() < 16 {
                Err(Error::ShortInput)
            } else {
                Ok(Some(ResolvedView::Guid(Guid(guid_u128(s[p])))))
            }
        },
        PValue::MultipleString(n) => match multi_bytes_of(s, prefix, pid, 0x101F, n, 0) {
            None => Ok(None),
            Some(items) => match decode_list_of(items) {
                Err(e) => Err(e),
                Ok(ts) => Ok(Some(ResolvedView::TextList(ts))),
            },
        },
        PValue::MultipleString8(n) => match multi_bytes_of(s, prefix, pid, 0x101E, n, 0) {
            None => Ok(None),
            Some(items) => Ok(Some(ResolvedView::BytesList(items))),
        },
        PValue::MultipleBinary(n) => match multi_bytes_of(s, prefix, pid, 0x1102, n, 0) {
            None => Ok(None),
            Some(items) => Ok(Some(ResolvedView::BytesList(items))),
        },
        _ => Ok(None),
    }
}

/// Opens the sub-stream of a single-valued property.
fn fetch_single(comp: &mut MsgContainer, prefix: &str, pid: u16, pt: u16) -> (r: Option<Vec<u8>>)
    ensures
        container_streams(*final(comp)) == container_streams(*old(comp)),
        container_entries(*final(comp)) == container_entries(*old(comp)),
        ({
            let p = prefix@ + substg_name(pid, pt);
            let s = container_streams(*old(comp));
            &&& (r is Some <==> s.dom().contains(p))
            &&& (r matches Some(b) ==> b@ == s[p])
        }),
{
    let mut path = String::from_str(prefix);
    let name = make_substg_name(pid, pt);
    path.append(name.as_str());
    stream_bytes(comp, path.as_str())
}

/// Collects the element streams of a multi-valued property.
fn fetch_multi(comp: &mut MsgContainer, prefix: &str, pid: u16, pt: u16, n: u32) -> (r: Option<
    Vec<Vec<u8>>,
>)
    ensures
        container_streams(*final(comp)) == container_streams(*old(comp)),
        container_entries(*final(comp)) == container_entries(*old(comp)),
        ({
            let s = container_streams(*old(comp));
            match r {
                Some(items) => multi_bytes_of(s, prefix@, pid, pt, n, 0) == Some(
                    items@.map_values(|b: Vec<u8>| b@),
                ),
                None => multi_bytes_of(s, prefix@, pid, pt, n, 0) is None,
            }
        }),
{
    let ghost s0 = container_streams(*comp);
    let mut items: Vec<Vec<u8>> = Vec::new();
    let mut k: u32 = 0;
    proof {
        assert(items@.map_values(|b: Vec<u8>| b@) + Seq::<Seq<u8>>::empty() =~= items@.map_values(
            |b: Vec<u8>| b@,
        ));
    }
    while k < n
        invariant
            k <= n,
            s0 == container_streams(*old(comp)),
            container_streams(*comp) == s0,
            container_entries(*comp) == container_entries(*old(comp)),
            multi_bytes_of(s0, prefix@, pid, pt, n, 0) == (match multi_bytes_of(
                s0,
                prefix@,
                pid,
                pt,
                n,
                k,
            ) {
                None => None,
                Some(rest) => Some(items@.map_values(|b: Vec<u8>| b@) + rest),
            }),
        decreases n - k,
    {
        let ghost prior = items@;
        let mut path = String::from_str(prefix);
        let name = make_substg_element_name(pid, pt, k);
        path.append(name.as_str());
        match stream_bytes(comp, path.as_str()) {
            Some(b) => {
                items.push(b);
                proof {
                    match multi_bytes_of(s0, prefix@, pid, pt, n, (k + 1) as u32) {
                        None => {},
                        Some(rest) => {
                            assert(items@.map_values(|b: Vec<u8>| b@) + rest =~= prior.map_values(
                                |b: Vec<u8>| b@,
                            ) + (seq![s0[prefix@ + substg_element_name(pid, pt, k)]] + rest));
                        },
                    }
                }
            },
            None => {
                proof {
                    assert(multi_bytes_of(s0, prefix@, pid, pt, n, k) is None);
                }
                return None;
            },
        }
        k = k + 1;
    }
    proof {
        assert(multi_bytes_of(s0, prefix@, pid, pt, n, n) == Some(Seq::<Seq<u8>>::empty()));
        assert(items@.map_values(|b: Vec<u8>| b@) + Seq::<Seq<u8>>::empty() =~= items@.map_values(
            |b: Vec<u8>| b@,
        ));
    }
    Some(items)
}

/// Decodes each element of a multi-valued string property.
fn decode_elements(items: Vec<Vec<u8>>) -> (r: Result<Vec<String>, Error>)
    ensures
        match r {
            Ok(ts) => decode_list_of(items@.map_values(|b: Vec<u8>| b@)) == Ok::<
                Seq<Seq<char>>,
                Error,
            >(ts@.map_values(|s: String| s@)),
            Err(e) => decode_list_of(items@.map_values(|b: Vec<u8>| b@)) == Err::<
                Seq<Seq<char>>,
                Error,
            >(e),
        },
{
    let ghost full = items@.map_values(|b: Vec<u8>| b@);
    let mut out: Vec<String> = Vec::new();
    let mut i: usize = 0;
    let n = items.len();
    proof {
        assert(full.skip(0) =~= full);
        match decode_list_of(full) {
            Ok(rest) => {
                assert(out@.map_values(|s: String| s@) + rest =~= rest);
            },
            Err(_) => {},
        }
    }
    while i < n
        invariant
            i <= n,
            n == items@.len(),
            full == items@.map_values(|b: Vec<u8>| b@),
            decode_list_of(full) == (match decode_list_of(full.skip(i as int)) {
                Ok(rest) => Ok::<Seq<Seq<char>>, Error>(
                    out@.map_values(|s: String| s@) + rest,
                ),
                Err(e) => Err::<Seq<Seq<char>>, Error>(e),
            }),
        decreases n - i,
    {
        let ghost prior = out@;
        let ghost tail = full.skip(i as int);
        match crate::bytes::read(items[i].as_slice()) {
            Ok(t) => {
                out.push(t);
                proof {
                    assert(tail[0] == full[i as int]);
                    assert(tail.drop_first() =~= full.skip(i + 1));
                    match decode_list_of(full.skip(i + 1)) {
                        Ok(rest) => {
                            assert(out@.map_values(|s: String| s@) + rest =~= prior.map_values(
                                |s: String| s@,
                            ) + (seq![t@] + rest));
                        },
                        Err(_) => {},
                    }
                }
            },
            Err(e) => {
                proof {
                    assert(tail[0] == full[i as int]);
                    assert(decode_list_of(tail) == Err::<Seq<Seq<char>>, Error>(e));
                }
                return Err(e);
            },
        }
        i = i + 1;
    }
    proof {
        assert(full.skip(n as int) =~= Seq::<Seq<u8>>::empty());
        assert(out@.map_values(|s: String| s@) + Seq::<Seq<char>>::empty() =~= out@.map_values(
            |s: String| s@,
        ));
    }
    Ok(out)
}

/// Resolves the payload of one property entry.  `prefix` is the path of
/// the enclosing storage up to and including its separator, `"/"` for the
/// message root.
pub fn resolve_variable(
    comp: &mut MsgContainer,
    prefix: &str,
    entry: &FixedLengthPropertyEntry,
) -> (r: Result<Option<Resolved>, Error>)
    ensures
        container_streams(*final(comp)) == container_streams(*old(comp)),
        container_entries(*final(comp)) == container_entries(*old(comp)),
        ({
            let spec_r = resolve_spec(container_streams(*old(comp)), prefix@, *entry);
            match r {
                Ok(Some(v)) => spec_r == Ok::<Option<ResolvedView>, Error>(Some(v@)),
                Ok(None) => spec_r == Ok::<Option<ResolvedView>, Error>(None),
                Err(e) => spec_r == Err::<Option<ResolvedView>, Error>(e),
            }
        }),
{
    let pid = match entry.property_id.to_u16() {
        Some(v) => v,
        None => {
            proof {
                assert(false);
            }
            0
        },
    };
    match entry.value {
        PValue::String(_) => {
            match fetch_single(comp, prefix, pid, 0x001F) {
                Some(b) => match crate::bytes::read(b.as_slice()) {
                    Ok(t) => Ok(Some(Resolved::Text(t))),
                    Err(e) => Err(e),
                },
                None => Ok(None),
            }
        },
        PValue::String8(_) => {
            match fetch_single(comp, prefix, pid, 0x001E) {
                Some(b) => Ok(Some(Resolved::Bytes(b))),
                None => Ok(None),
            }
        },
        PValue::Binary(_) => {
            match fetch_single(comp, prefix, pid, 0x0102) {
                Some(b) => Ok(Some(Resolved::Bytes(b))),
                None => Ok(None),
            }
        },
        PValue::ServerId(_) => {
            match fetch_single(comp, prefix, pid, 0x00FB) {
                Some(b) => Ok(Some(Resolved::Bytes(b))),
                None => Ok(None),
            }
        },
        PValue::Restriction(_) => {
            match fetch_single(comp, prefix, pid, 0x00FD) {
                Some(b) => Ok(Some(Resolved::Bytes(b))),
                None => Ok(None),
            }
        },
        PValue::RuleAction(_) => {
            match fetch_single(comp, prefix, pid, 0x00FE) {
                Some(b) => Ok(Some(Resolved::Bytes(b))),
                None => Ok(None),
            }
        },
        PValue::Guid(_) => {
            match fetch_single(comp, prefix, pid, 0x0048) {
                Some(b) => match crate::guid::parse_guid(b.as_slice()) {
                    Ok(g) => Ok(Some(Resolved::Guid(g))),
                    Err(e) => Err(e),
                },
                None => Ok(None),
            }
        },
        PValue::MultipleString(n) => {
            match fetch_multi(comp, prefix, pid, 0x101F, n) {
                Some(items) => match decode_elements(items) {
                    Ok(ts) => Ok(Some(Resolved::TextList(ts))),
                    Err(e) => Err(e),
                },
                None => Ok(None),
            }
        },
        PValue::MultipleString8(n) => {
            match fetch_multi(comp, prefix, pid, 0x101E, n) {
                Some(items) => Ok(Some(Resolved::BytesList(items))),
                None => Ok(None),
            }
        },
        PValue::MultipleBinary(n) => {
            match fetch_multi(comp, prefix, pid, 0x1102, n) {
                Some(items) => Ok(Some(Resolved::BytesList(items))),
                None => Ok(None),
            }
        },
        _ => Ok(None),
    }
}

} // verus!
