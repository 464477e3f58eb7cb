//! Canonical container paths: storage names for recipients and
//! attachments, and sub-stream names for property payloads.  Storage and
//! child are joined with a forward slash, the separator the compound-file
//! reader splits on.

use vstd::prelude::*;
use vstd::string::StringExecFns;
use crate::bytes::{hex_seq, hex_upper};

verus! {

/// The storage name of recipient `i`: the fixed prefix and eight
/// upper-case hexadecimal digits.
pub open spec fn recip_storage_name(i: int) -> Seq<char> {
    "__recip_version1.0_#"@ + hex_seq(i as u32, 8)
}

/// The storage name of attachment `i`.
pub open spec fn attach_storage_name(i: int) -> Seq<char> {
    "__attach_version1.0_#"@ + hex_seq(i as u32, 8)
}

/// An entry of the root storage.
pub open spec fn root_path(name: Seq<char>) -> Seq<char> {
    seq!['/'] + name
}

/// A stream inside a child storage of the root.
pub open spec fn sub_stream_path(storage: Seq<char>, stream: Seq<char>) -> Seq<char> {
    seq!['/'] + storage + seq!['/'] + stream
}

/// The sub-stream name of a variable-length property: the fixed prefix,
/// the property id and the property type, each as four hexadecimal digits.
pub open spec fn substg_name(pid: u16, ptype: u16) -> Seq<char> {
    "__substg1.0_"@ + hex_seq(pid as u32, 4) + hex_seq(ptype as u32, 4)
}

/// The element stream of a multi-valued property: the single-valued name,
/// a hyphen, and the element number as eight hexadecimal digits.
pub open spec fn substg_element_name(pid: u16, ptype: u16, n: u32) -> Seq<char> {
    substg_name(pid, ptype) + seq!['-'] + hex_seq(n, 8)
}

/// Formats the storage name of recipient `i`.
pub fn recipient_storage_name(i: u32) -> (r: String)
    ensures
        r@ == recip_storage_name(i as int),
{
    let mut s = String::from_str("__recip_version1.0_#");
    let hex = hex_upper(i, 8);
    s.append(hex.as_str());
    s
}

/// Formats the storage name of attachment `i`.
pub fn attachment_storage_name(i: u32) -> (r: String)
    ensures
        r@ == attach_storage_name(i as int),
{
    let mut s = String::from_str("__attach_version1.0_#");
    let hex = hex_upper(i, 8);
    s.append(hex.as_str());
    s
}

/// Joins a root entry name to its path.
pub fn make_root_path(name: &str) -> (r: String)
    ensures
        r@ == root_path(name@),
{
    let mut s = String::from_str("/");
    s.append(name);
    proof {
        reveal_strlit("/");
        assert(s@ =~= root_path(name@));
    }
    s
}

/// Joins a storage name and a stream name to the stream's path.
pub fn make_sub_stream_path(storage: &str, stream: &str) -> (r: String)
    ensures
        r@ == sub_stream_path(storage@, stream@),
{
    let mut s = String::from_str("/");
    s.append(storage);
    s.append("/");
    s.append(stream);
    proof {
        reveal_strlit("/");
        assert(s@ =~= sub_stream_path(storage@, stream@));
    }
    s
}

/// Formats the sub-stream name of a variable-length property.
pub fn make_substg_name(pid: u16, ptype: u16) -> (r: String)
    ensures
        r@ == substg_name(pid, ptype),
{
    let mut s = String::from_str("__substg1.0_");
    let hp = hex_upper(pid as u32, 4);
    s.append(hp.as_str());
    let ht = hex_upper(ptype as u32, 4);
    s.append(ht.as_str());
    proof {
        assert(s@ =~= substg_name(pid, ptype));
    }
    s
}

/// Formats the element stream name of a multi-valued property.
pub fn make_substg_element_name(pid: u16, ptype: u16, n: u32) -> (r: String)
    ensures
        r@ == substg_element_name(pid, ptype, n),
{
    let mut s = make_substg_name(pid, ptype);
    s.append("-");
    let hn = hex_upper(n, 8);
    s.append(hn.as_str());
    proof {
        reveal_strlit("-");
        assert(s@ =~= substg_element_name(pid, ptype, n));
    }
    s
}

} // verus!
