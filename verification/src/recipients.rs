//! The recipient assembler: one recipient per `__recip_version1.0_#N`
//! storage.

use vstd::prelude::*;
use vstd::string::StringExecFns;
use crate::Error;
use crate::bytes::read_of;
use crate::cfbio::{MsgContainer, container_entries, container_streams, stream_bytes};
use crate::paths::{make_sub_stream_path, make_substg_name, sub_stream_path, substg_name};

verus! {

/// A message recipient: its storage name and its address.
#[derive(Clone, Debug, PartialEq, Eq)]
pub struct Recipient {
    /// The name of the recipient's storage inside the container.
    pub cfb_name: String,
    /// The recipient's address: the SMTP address property when present,
    /// else the display-name property.
    pub address: String,
}

/// The mathematical content of a [`Recipient`].
pub struct RecipientView {
    pub cfb_name: Seq<char>,
    pub address: Seq<char>,
}

impl View for Recipient {
    type V = RecipientView;

    open spec fn view(&self) -> RecipientView {
        RecipientView { cfb_name: self.cfb_name@, address: self.address@ }
    }
}

/// What the recipient storage `name` assembles to, over the container's
/// stream map: the SMTP address stream decoded, the display-name stream
/// as fallback, and a failure when neither is present.
pub open spec fn recipient_spec(s: Map<Seq<char>, Seq<u8>>, name: Seq<char>) -> Result<
    RecipientView,
    Error,
> {
    let smtp = sub_stream_path(name, substg_name(0x39FE, 0x001F));
    let display = sub_stream_path(name, substg_name(0x3003, 0x001F));
    if s.dom().contains(smtp) {
        match read_of(s[smtp]) {
            Ok(a) => Ok(RecipientView { cfb_name: name, address: a }),
            Err(e) => Err(e),
        }
    } else if s.dom().contains(display) {
        match read_of(s[display]) {
            Ok(a) => Ok(RecipientView { cfb_name: name, address: a }),
            Err(e) => Err(e),
        }
    } else {
        Err(Error::MissingProperties)
    }
}

impl Recipient {
    /// Assembles the recipient stored under `cfb_name`.
    pub fn from_cfb(comp: &mut MsgContainer, cfb_name: String) -> (r: Result<Recipient, Error>)
        ensures
            container_streams(*final(comp)) == container_streams(*old(comp)),
            container_entries(*final(comp)) == container_entries(*old(comp)),
            match r {
                Ok(rec) => recipient_spec(container_streams(*old(comp)), cfb_name@) == Ok::<
                    RecipientView,
                    Error,
                >(rec@),
                Err(e) => recipient_spec(container_streams(*old(comp)), cfb_name@) == Err::<
                    RecipientView,
                    Error,
                >(e),
            },
    {
        let smtp_name = make_substg_name(0x39FE, 0x001F);
        let smtp_path = make_sub_stream_path(cfb_name.as_str(), smtp_name.as_str());
        match stream_bytes(comp, smtp_path.as_str()) {
            Some(bytes) => {
                match crate::bytes::read(bytes.as_slice()) {
                    Ok(address) => Ok(Recipient { cfb_name, address }),
                    Err(e) => Err(e),
                }
            },
            None => {
                let display_name = make_substg_name(0x3003, 0x001F);
                let display_path = make_sub_stream_path(cfb_name.as_str(), display_name.as_str());
                match stream_bytes(comp, display_path.as_str()) {
                    Some(bytes) => {
                        match crate::bytes::read(bytes.as_slice()) {
                            Ok(address) => Ok(Recipient { cfb_name, address }),
                            Err(e) => Err(e),
                        }
                    },
                    None => Err(Error::MissingProperties),
                }
            },
        }
    }
}

} // verus!
