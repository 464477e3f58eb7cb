//! The attachment assembler: one attachment per `__attach_version1.0_#N`
//! storage.

use vstd::prelude::*;
use vstd::string::StringExecFns;
use crate::Error;
use crate::bytes::read_of;
use crate::cfbio::{MsgContainer, container_entries, container_streams, stream_bytes};
use crate::paths::{make_sub_stream_path, make_substg_name, sub_stream_path, substg_name};
use crate::property_ids::{Pid, Tag};
use crate::props::{FixedLengthPropertyEntry, PValue, sub_props_of};

verus! {

/// An attachment's binary payload.
#[derive(Clone, Debug, PartialEq, Eq)]
pub struct AttachmentData {
    pub bytes: Vec<u8>,
}

/// The mathematical content of an [`AttachmentData`].
pub struct AttachmentDataView {
    pub bytes: Seq<u8>,
}

impl View for AttachmentData {
    type V = AttachmentDataView;

    open spec fn view(&self) -> AttachmentDataView {
        AttachmentDataView { bytes: self.bytes@ }
    }
}

/// A message attachment: its storage name, display filename, optional
/// payload, and hidden flag.
#[derive(Clone, Debug, PartialEq, Eq)]
pub struct Attachment {
    /// The name of the attachment's storage inside the container.
    pub cfb_name: String,
    /// The long filename property when present, else the display name.
    pub name: String,
    /// The binary payload, when its stream is present.
    pub data: Option<AttachmentData>,
    /// The hidden flag, `false` when the property is absent.
    pub hidden: bool,
}

/// The mathematical content of an [`Attachment`].
pub struct AttachmentView {
    pub cfb_name: Seq<char>,
    pub name: Seq<char>,
    pub data: Option<AttachmentDataView>,
    pub hidden: bool,
}

impl View for Attachment {
    type V = AttachmentView;

    open spec fn view(&self) -> AttachmentView {
        AttachmentView {
            cfb_name: self.cfb_name@,
            name: self.name@,
            data: match &self.data {
                Some(d) => Some(d@),
                None => None,
            },
            hidden: self.hidden,
        }
    }
}

/// The hidden flag a property entry list yields: the value of the last
/// boolean `AttachmentHidden` entry, `false` when there is none.
pub open spec fn hidden_of(entries: Seq<FixedLengthPropertyEntry>) -> bool
    decreases entries.len(),
{
    if entries.len() == 0 {
        false
    } else {
        match (entries.last().property_id, entries.last().value) {
            (Pid::Tag(Tag::AttachmentHidden), PValue::Boolean(b)) => b,
            _ => hidden_of(entries.drop_last()),
        }
    }
}

/// Scans a property entry list for the hidden flag.
pub fn scan_hidden(entries: &Vec<FixedLengthPropertyEntry>) -> (r: bool)
    ensures
        r == hidden_of(entries@),
{
    let mut acc = false;
    let mut i: usize = 0;
    let n = entries.len();
    proof {
        assert(entries@.take(0) =~= Seq::<FixedLengthPropertyEntry>::empty());
    }
    while i < n
        invariant
            i <= n,
            n == entries@.len(),
            acc == hidden_of(entries@.take(i as int)),
        decreases n - i,
    {
        let entry = &entries[i];
        let is_hidden_bool = match (entry.property_id, entry.value) {
            (Pid::Tag(Tag::AttachmentHidden), PValue::Boolean(_)) => true,
            _ => false,
        };
        if is_hidden_bool {
            acc = match entry.value {
                PValue::Boolean(b) => b,
                _ => false,
            };
        }
        proof {
            assert(entries@.take(i + 1).drop_last() =~= entries@.take(i as int));
            assert(entries@.take(i + 1).last() == entries@[i as int]);
        }
        i = i + 1;
    }
    proof {
        assert(entries@.take(n as int) =~= entries@);
    }
    acc
}

/// What the attachment storage `name` assembles to, over the container's
/// stream map.  A missing or malformed property stream leaves the hidden
/// flag `false`; a missing long filename falls back to the display name;
/// a missing payload stream leaves the payload absent.
pub open spec fn attachment_spec(s: Map<Seq<char>, Seq<u8>>, name: Seq<char>) -> Result<
    AttachmentView,
    Error,
> {
    let pp = sub_stream_path(name, "__properties_version1.0"@);
    let hidden = if s.dom().contains(pp) {
        match sub_props_of(s[pp]) {
            Ok(v) => hidden_of(v.properties),
            Err(_) => false,
        }
    } else {
        false
    };
    let long = sub_stream_path(name, substg_name(0x3707, 0x001F));
    let display = sub_stream_path(name, substg_name(0x3001, 0x001F));
    let fname = if s.dom().contains(long) {
        read_of(s[long])
    } else if s.dom().contains(display) {
        read_of(s[display])
    } else {
        Err(Error::MissingProperties)
    };
    match fname {
        Err(e) => Err(e),
        Ok(filename) => {
            let dp = sub_stream_path(name, substg_name(0x3701, 0x0102));
            let data = if s.dom().contains(dp) {
                Some(AttachmentDataView { bytes: s[dp] })
            } else {
                None
            };
            Ok(AttachmentView { cfb_name: name, name: filename, data, hidden })
        },
    }
}

impl Attachment {
    /// Assembles the attachment stored under `cfb_name`.
    pub fn from_cfb(comp: &mut MsgContainer, cfb_name: &str) -> (r: Result<Attachment, Error>)
        ensures
            container_streams(*final(comp)) == container_streams(*old(comp)),
            container_entries(*final(comp)) == container_entries(*old(comp)),
            match r {
                Ok(a) => attachment_spec(container_streams(*old(comp)), cfb_name@) == Ok::<
                    AttachmentView,
                    Error,
                >(a@),
                Err(e) => attachment_spec(container_streams(*old(comp)), cfb_name@) == Err::<
                    AttachmentView,
                    Error,
                >(e),
            },
    {
        let props_path = make_sub_stream_path(cfb_name, "__properties_version1.0");
        let hidden = match stream_bytes(comp, props_path.as_str()) {
            Some(bytes) => {
                match crate::props::parse_property_stream_header_other(bytes.as_slice()) {
                    Ok(props) => scan_hidden(&props.properties),
                    Err(_) => false,
                }
            },
            None => false,
        };
        let long_name = make_substg_name(0x3707, 0x001F);
        let long_path = make_sub_stream_path(cfb_name, long_name.as_str());
        let name = match stream_bytes(comp, long_path.as_str()) {
            Some(bytes) => {
                match crate::bytes::read(bytes.as_slice()) {
                    Ok(n) => n,
                    Err(e) => {
                        return Err(e);
                    },
                }
            },
            None => {
                let display_name = make_substg_name(0x3001, 0x001F);
                let display_path = make_sub_stream_path(cfb_name, display_name.as_str());
                match stream_bytes(comp, display_path.as_str()) {
                    Some(bytes) => {
                        match crate::bytes::read(bytes.as_slice()) {
                            Ok(n) => n,
                            Err(e) => {
                                return Err(e);
                            },
                        }
                    },
                    None => {
                        return Err(Error::MissingProperties);
                    },
                }
            },
        };
        let data_name = make_substg_name(0x3701, 0x0102);
        let data_path = make_sub_stream_path(cfb_name, data_name.as_str());
        let data = match stream_bytes(comp, data_path.as_str()) {
            Some(bytes) => Some(AttachmentData { bytes }),
            None => None,
        };
        Ok(Attachment { cfb_name: String::from_str(cfb_name), name, data, hidden })
    }
}

} // verus!
