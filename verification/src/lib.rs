//! Decoder for the MAPI property layer of Outlook `.msg` files.
//!
//! A `.msg` file is an OLE compound file holding one mail message.  This
//! crate walks its storages and streams, reconstructs the named-property
//! map, parses the fixed-length property tables, resolves variable-length
//! property payloads, and assembles the message, its recipients and its
//! attachments into plain values.

use vstd::prelude::*;

pub mod bytes;
pub mod guid;
pub mod attachments;
pub mod cfbio;
pub mod recipients;
pub mod digest;
pub mod nameid;
pub mod paths;
pub mod property_ids;
pub mod property_sets;
pub mod props;
pub mod ptype;
pub mod resolve;
pub mod time;

verus! {

/// The ways a parse can fail.
///
/// Structural errors (a required storage or stream is missing, a stream is
/// shorter than its layout demands) and semantic errors (a mandatory
/// property is absent) abort the parse; everything else is tolerated.
#[derive(Copy, Clone, Debug, PartialEq, Eq, Structural)]
pub enum Error {
    /// A slice is too short for the fixed-width value expected at its head.
    ShortInput,
    /// A UTF-16LE byte string has an odd number of bytes.
    OddByteCount,
    /// A timestamp does not fit the 64-bit FILETIME range.
    TimeOverflow,
    /// The byte buffer is not a well-formed compound file.
    InvalidContainer,
    /// A required storage is missing from the container.
    MissingStorage,
    /// A required property stream is missing from its storage.
    MissingProperties,
    /// The message has no subject property.
    MissingSubject,
    /// The message has no sender address property.
    MissingSender,
    /// The message has no delivery-time property.
    MissingDeliveryTime,
    /// A GUID index field holds the reserved value zero.
    InvalidGuidIndex,
    /// The recipient or attachment storages do not match the counts
    /// declared in the top-level property stream header.
    CountMismatch,
    /// A named-property slot index would leave the 16-bit identifier
    /// space.
    SlotOutOfRange,
}

/// A tolerated defect noticed during a parse.
#[derive(Clone, Debug, PartialEq, Eq)]
pub enum Warning {
    /// A named-property record's derived stream name differs from the
    /// bucket stream it was read from; the name is the bucket's.
    MappingChecksum(String),
}

/// The mathematical content of a [`Warning`].
pub enum WarningView {
    MappingChecksum(Seq<char>),
}

impl View for Warning {
    type V = WarningView;

    open spec fn view(&self) -> WarningView {
        match self {
            Warning::MappingChecksum(s) => WarningView::MappingChecksum(s@),
        }
    }
}

/// Yields the storage names of attachments in numeric order, up to the
/// enumeration cap of 2048.
pub struct AttachmentNameIter {
    pub i: u16,
}

impl AttachmentNameIter {
    pub fn new() -> (r: Self)
        ensures
            r.i == 0,
    {
        Self { i: 0 }
    }

    /// The next storage name, or nothing past the cap.
    pub fn next(&mut self) -> (r: Option<String>)
        ensures
            old(self).i >= 2048 ==> r is None && final(self).i == old(self).i,
            old(self).i < 2048 ==> final(self).i == old(self).i + 1 && (r matches Some(s)
                && s@ == paths::attach_storage_name(old(self).i as int)),
    {
        if self.i >= 2048 {
            return None;
        }
        let s = paths::attachment_storage_name(self.i as u32);
        self.i = self.i + 1;
        Some(s)
    }
}

/// Yields the storage names of recipients in numeric order, up to the
/// enumeration cap of 2048.
pub struct RecipientNameIter {
    pub i: u16,
}

impl RecipientNameIter {
    pub fn new() -> (r: Self)
        ensures
            r.i == 0,
    {
        Self { i: 0 }
    }

    /// The next storage name, or nothing past the cap.
    pub fn next(&mut self) -> (r: Option<String>)
        ensures
            old(self).i >= 2048 ==> r is None && final(self).i == old(self).i,
            old(self).i < 2048 ==> final(self).i == old(self).i + 1 && (r matches Some(s)
                && s@ == paths::recip_storage_name(old(self).i as int)),
    {
        if self.i >= 2048 {
            return None;
        }
        let s = paths::recipient_storage_name(self.i as u32);
        self.i = self.i + 1;
        Some(s)
    }
}

/// The raw shape of a message container: its named-property mapping and
/// its unparsed top-level property stream.
pub struct RawMsg {
    /// The parsed streams of the name-id storage.
    pub named_property_mapping: nameid::NamedPropertyMapping,
    /// The raw bytes of the top-level property stream.
    pub property_stream: props::PropertyStream,
}

// ---------------------------------------------------------------------------
// The message assembler
// ---------------------------------------------------------------------------

/// An assembled mail message.
#[derive(Clone, Debug, PartialEq, Eq)]
pub struct EmailMessage {
    pub subject: String,
    pub sender: String,
    pub attachments: Vec<attachments::Attachment>,
    pub recipients: Vec<recipients::Recipient>,
    pub delivery_time: time::UtcTime,
}

/// The mathematical content of an [`EmailMessage`].
pub struct EmailMessageView {
    pub subject: Seq<char>,
    pub sender: Seq<char>,
    pub attachments: Seq<attachments::AttachmentView>,
    pub recipients: Seq<recipients::RecipientView>,
    pub delivery_time: time::UtcTime,
}

impl View for EmailMessage {
    type V = EmailMessageView;

    open spec fn view(&self) -> EmailMessageView {
        EmailMessageView {
            subject: self.subject@,
            sender: self.sender@,
            attachments: self.attachments@.map_values(|a: attachments::Attachment| a@),
            recipients: self.recipients@.map_values(|r: recipients::Recipient| r@),
            delivery_time: self.delivery_time,
        }
    }
}

/// The delivery time a property entry list yields: the value of the last
/// time-typed `MessageDeliveryTime` entry, if any.
pub open spec fn delivery_of(entries: Seq<props::FixedLengthPropertyEntry>) -> Option<
    time::UtcTime,
>
    decreases entries.len(),
{
    if entries.len() == 0 {
        None
    } else {
        match (entries.last().property_id, entries.last().value) {
            (
                property_ids::Pid::Tag(property_ids::Tag::MessageDeliveryTime),
                props::PValue::Time(t),
            ) => Some(t),
            _ => delivery_of(entries.drop_last()),
        }
    }
}

/// Scans a property entry list for the delivery time.
pub fn scan_delivery(entries: &Vec<props::FixedLengthPropertyEntry>) -> (r: Option<time::UtcTime>)
    ensures
        r == delivery_of(entries@),
{
    let mut acc: Option<time::UtcTime> = None;
    let mut i: usize = 0;
    let n = entries.len();
    proof {
        assert(entries@.take(0) =~= Seq::<props::FixedLengthPropertyEntry>::empty());
    }
    while i < n
        invariant
            i <= n,
            n == entries@.len(),
            acc == delivery_of(entries@.take(i as int)),
        decreases n - i,
    {
        let entry = &entries[i];
        match (entry.property_id, entry.value) {
            (
                property_ids::Pid::Tag(property_ids::Tag::MessageDeliveryTime),
                props::PValue::Time(t),
            ) => {
                acc = Some(t);
            },
            _ => {},
        }
        proof {
            assert(entries@.take(i + 1).drop_last() =~= entries@.take(i as int));
            assert(entries@.take(i + 1).last() == entries@[i as int]);
        }
        i = i + 1;
    }
    proof {
        assert(entries@.take(n as int) =~= entries@);
    }
    acc
}

/// The recipients of the dense storage sequence from index `i` up: one per
/// present storage, stopping at the first absent index or the cap; a
/// recipient whose own assembly fails is omitted.
pub open spec fn recip_list(
    s: Map<Seq<char>, Seq<u8>>,
    e: Set<Seq<char>>,
    i: int,
) -> Seq<recipients::RecipientView>
    decreases 2048 - i,
{
    if i < 0 || i >= 2048 || !e.contains(paths::root_path(paths::recip_storage_name(i))) {
        Seq::<recipients::RecipientView>::empty()
    } else {
        match recipients::recipient_spec(s, paths::recip_storage_name(i)) {
            Ok(v) => seq![v] + recip_list(s, e, i + 1),
            Err(_) => recip_list(s, e, i + 1),
        }
    }
}

/// The attachments of the dense storage sequence from index `i` up.
pub open spec fn attach_list(
    s: Map<Seq<char>, Seq<u8>>,
    e: Set<Seq<char>>,
    i: int,
) -> Seq<attachments::AttachmentView>
    decreases 2048 - i,
{
    if i < 0 || i >= 2048 || !e.contains(paths::root_path(paths::attach_storage_name(i))) {
        Seq::<attachments::AttachmentView>::empty()
    } else {
        match attachments::attachment_spec(s, paths::attach_storage_name(i)) {
            Ok(v) => seq![v] + attach_list(s, e, i + 1),
            Err(_) => attach_list(s, e, i + 1),
        }
    }
}

/// What a whole message container assembles to, over its stream map and
/// entry set: the required subject, sender and delivery time, then the
/// recipient and attachment lists, which must match the header counts.
pub open spec fn message_spec(s: Map<Seq<char>, Seq<u8>>, e: Set<Seq<char>>) -> Result<
    EmailMessageView,
    Error,
> {
    let sp = paths::root_path(paths::substg_name(0x0037, 0x001F));
    let snp = paths::root_path(paths::substg_name(0x0C1F, 0x001F));
    let pp = paths::root_path("__properties_version1.0"@);
    if !s.dom().contains(sp) {
        Err(Error::MissingSubject)
    } else {
        match bytes::read_of(s[sp]) {
            Err(err) => Err(err),
            Ok(subject) => if !s.dom().contains(snp) {
                Err(Error::MissingSender)
            } else {
                match bytes::read_of(s[snp]) {
                    Err(err) => Err(err),
                    Ok(sender) => if !s.dom().contains(pp) {
                        Err(Error::MissingProperties)
                    } else {
                        match props::top_props_of(s[pp]) {
                            Err(err) => Err(err),
                            Ok(top) => match delivery_of(top.properties) {
                                None => Err(Error::MissingDeliveryTime),
                                Some(delivery_time) => {
                                    let recips = recip_list(s, e, 0);
                                    let attaches = attach_list(s, e, 0);
                                    if recips.len() != top.recipient_count
                                        || attaches.len() != top.attachment_count {
                                        Err(Error::CountMismatch)
                                    } else {
                                        Ok(
                                            EmailMessageView {
                                                subject,
                                                sender,
                                                attachments: attaches,
                                                recipients: recips,
                                                delivery_time,
                                            },
                                        )
                                    }
                                },
                            },
                        }
                    },
                }
            },
        }
    }
}

/// In every successfully assembled message the number of recipients and
/// attachments equals the counts declared in the top-level property
/// stream header.
pub proof fn lemma_counts_match_header(s: Map<Seq<char>, Seq<u8>>, e: Set<Seq<char>>)
    requires
        message_spec(s, e) is Ok,
    ensures
        ({
            let m = message_spec(s, e)->Ok_0;
            let top = props::top_props_of(
                s[paths::root_path("__properties_version1.0"@)],
            )->Ok_0;
            m.recipients.len() == top.recipient_count && m.attachments.len()
                == top.attachment_count
        }),
{
}

/// Collects the dense sequence of recipient storages.
fn collect_recipients(comp: &mut cfbio::MsgContainer) -> (r: Vec<recipients::Recipient>)
    ensures
        cfbio::container_streams(*final(comp)) == cfbio::container_streams(*old(comp)),
        cfbio::container_entries(*final(comp)) == cfbio::container_entries(*old(comp)),
        r@.map_values(|x: recipients::Recipient| x@) == recip_list(
            cfbio::container_streams(*old(comp)),
            cfbio::container_entries(*old(comp)),
            0,
        ),
{
    let ghost s0 = cfbio::container_streams(*comp);
    let ghost e0 = cfbio::container_entries(*comp);
    let mut recipients_out: Vec<recipients::Recipient> = Vec::new();
    let mut i: u32 = 0;
    proof {
        assert(recipients_out@.map_values(|x: recipients::Recipient| x@) + recip_list(s0, e0, 0)
            =~= recip_list(s0, e0, 0));
    }
    while i < 2048
        invariant
            i <= 2048,
            s0 == cfbio::container_streams(*old(comp)),
            e0 == cfbio::container_entries(*old(comp)),
            cfbio::container_streams(*comp) == s0,
            cfbio::container_entries(*comp) == e0,
            recip_list(s0, e0, 0) == recipients_out@.map_values(|x: recipients::Recipient| x@)
                + recip_list(s0, e0, i as int),
        decreases 2048 - i,
    {
        let ghost prior = recipients_out@;
        let name = paths::recipient_storage_name(i);
        let path = paths::make_root_path(name.as_str());
        if !cfbio::entry_exists(comp, path.as_str()) {
            proof {
                assert(recip_list(s0, e0, i as int) =~= Seq::<recipients::RecipientView>::empty());
                assert(prior.map_values(|x: recipients::Recipient| x@) + recip_list(
                    s0,
                    e0,
                    i as int,
                ) =~= prior.map_values(|x: recipients::Recipient| x@));
            }
            return recipients_out;
        }
        match recipients::Recipient::from_cfb(comp, name) {
            Ok(rec) => {
                recipients_out.push(rec);
                proof {
                    assert(recipients_out@.map_values(|x: recipients::Recipient| x@) + recip_list(
                        s0,
                        e0,
                        i + 1,
                    ) =~= prior.map_values(|x: recipients::Recipient| x@) + (seq![rec@]
                        + recip_list(s0, e0, i + 1)));
                }
            },
            Err(_) => {},
        }
        i = i + 1;
    }
    proof {
        assert(recip_list(s0, e0, 2048) =~= Seq::<recipients::RecipientView>::empty());
        assert(recipients_out@.map_values(|x: recipients::Recipient| x@) + recip_list(
            s0,
            e0,
            2048,
        ) =~= recipients_out@.map_values(|x: recipients::Recipient| x@));
    }
    recipients_out
}

/// Collects the dense sequence of attachment storages.
fn collect_attachments(comp: &mut cfbio::MsgContainer) -> (r: Vec<attachments::Attachment>)
    ensures
        cfbio::container_streams(*final(comp)) == cfbio::container_streams(*old(comp)),
        cfbio::container_entries(*final(comp)) == cfbio::container_entries(*old(comp)),
        r@.map_values(|x: attachments::Attachment| x@) == attach_list(
            cfbio::container_streams(*old(comp)),
            cfbio::container_entries(*old(comp)),
            0,
        ),
{
    let ghost s0 = cfbio::container_streams(*comp);
    let ghost e0 = cfbio::container_entries(*comp);
    let mut attachments_out: Vec<attachments::Attachment> = Vec::new();
    let mut i: u32 = 0;
    proof {
        assert(attachments_out@.map_values(|x: attachments::Attachment| x@) + attach_list(
            s0,
            e0,
            0,
        ) =~= attach_list(s0, e0, 0));
    }
    while i < 2048
        invariant
            i <= 2048,
            s0 == cfbio::container_streams(*old(comp)),
            e0 == cfbio::container_entries(*old(comp)),
            cfbio::container_streams(*comp) == s0,
            cfbio::container_entries(*comp) == e0,
            attach_list(s0, e0, 0) == attachments_out@.map_values(
                |x: attachments::Attachment| x@,
            ) + attach_list(s0, e0, i as int),
        decreases 2048 - i,
    {
        let ghost prior = attachments_out@;
        let name = paths::attachment_storage_name(i);
        let path = paths::make_root_path(name.as_str());
        if !cfbio::entry_exists(comp, path.as_str()) {
            proof {
                assert(attach_list(s0, e0, i as int) =~= Seq::<
                    attachments::AttachmentView,
                >::empty());
                assert(prior.map_values(|x: attachments::Attachment| x@) + attach_list(
                    s0,
                    e0,
                    i as int,
                ) =~= prior.map_values(|x: attachments::Attachment| x@));
            }
            return attachments_out;
        }
        match attachments::Attachment::from_cfb(comp, name.as_str()) {
            Ok(a) => {
                attachments_out.push(a);
                proof {
                    assert(attachments_out@.map_values(|x: attachments::Attachment| x@)
                        + attach_list(s0, e0, i + 1) =~= prior.map_values(
                        |x: attachments::Attachment| x@,
                    ) + (seq![a@] + attach_list(s0, e0, i + 1)));
                }
            },
            Err(_) => {},
        }
        i = i + 1;
    }
    proof {
        assert(attach_list(s0, e0, 2048) =~= Seq::<attachments::AttachmentView>::empty());
        assert(attachments_out@.map_values(|x: attachments::Attachment| x@) + attach_list(
            s0,
            e0,
            2048,
        ) =~= attachments_out@.map_values(|x: attachments::Attachment| x@));
    }
    attachments_out
}

impl EmailMessage {
    /// Whether an attachment with the given filename is present.
    pub fn is_attached(&self, filename: &str) -> (r: bool)
        ensures
            r == exists|j: int|
                0 <= j < self.attachments@.len() && self.attachments@[j].name@ == filename@,
    {
        let needle = <String as vstd::string::StringExecFns>::from_str(filename);
        let n = self.attachments.len();
        let mut i: usize = 0;
        while i < n
            invariant
                i <= n,
                n == self.attachments@.len(),
                needle@ == filename@,
                forall|j: int| 0 <= j < i ==> self.attachments@[j].name@ != filename@,
            decreases n - i,
        {
            if self.attachments[i].name.eq(&needle) {
                return true;
            }
            i = i + 1;
        }
        false
    }

    /// Assembles the message held in an open container.
    pub fn from_cfb(comp: &mut cfbio::MsgContainer) -> (r: Result<EmailMessage, Error>)
        ensures
            cfbio::container_streams(*final(comp)) == cfbio::container_streams(*old(comp)),
            cfbio::container_entries(*final(comp)) == cfbio::container_entries(*old(comp)),
            match r {
                Ok(m) => message_spec(
                    cfbio::container_streams(*old(comp)),
                    cfbio::container_entries(*old(comp)),
                ) == Ok::<EmailMessageView, Error>(m@),
                Err(e) => message_spec(
                    cfbio::container_streams(*old(comp)),
                    cfbio::container_entries(*old(comp)),
                ) == Err::<EmailMessageView, Error>(e),
            },
    {
        let subject_name = paths::make_substg_name(0x0037, 0x001F);
        let subject_path = paths::make_root_path(subject_name.as_str());
        let subject = match cfbio::stream_bytes(comp, subject_path.as_str()) {
            Some(b) => match bytes::read(b.as_slice()) {
                Ok(text) => text,
                Err(e) => {
                    return Err(e);
                },
            },
            None => {
                return Err(Error::MissingSubject);
            },
        };
        let sender_name = paths::make_substg_name(0x0C1F, 0x001F);
        let sender_path = paths::make_root_path(sender_name.as_str());
        let sender = match cfbio::stream_bytes(comp, sender_path.as_str()) {
            Some(b) => match bytes::read(b.as_slice()) {
                Ok(text) => text,
                Err(e) => {
                    return Err(e);
                },
            },
            None => {
                return Err(Error::MissingSender);
            },
        };
        let props_path = paths::make_root_path("__properties_version1.0");
        let top = match cfbio::stream_bytes(comp, props_path.as_str()) {
            Some(b) => match props::parse_property_stream_header_top_level(b.as_slice()) {
                Ok(t) => t,
                Err(e) => {
                    return Err(e);
                },
            },
            None => {
                return Err(Error::MissingProperties);
            },
        };
        let delivery_time = match scan_delivery(&top.properties) {
            Some(t) => t,
            None => {
                return Err(Error::MissingDeliveryTime);
            },
        };
        let recipients = collect_recipients(comp);
        let attachments = collect_attachments(comp);
        if recipients.len() as u64 != top.recipient_count as u64 || attachments.len() as u64
            != top.attachment_count as u64 {
            return Err(Error::CountMismatch);
        }
        Ok(EmailMessage { subject, sender, attachments, recipients, delivery_time })
    }

    /// Parses a whole `.msg` byte buffer.  The container's streams decide
    /// the outcome; a buffer that is not a compound file is rejected.
    pub fn parse_bytes(buffer: Vec<u8>) -> (r: Result<EmailMessage, Error>)
        ensures
            match r {
                Ok(m) => cfbio::buffer_is_container(buffer@) && message_spec(
                    cfbio::buffer_streams(buffer@),
                    cfbio::buffer_entries(buffer@),
                ) == Ok::<EmailMessageView, Error>(m@),
                Err(e) => (!cfbio::buffer_is_container(buffer@) && e == Error::InvalidContainer)
                    || (cfbio::buffer_is_container(buffer@) && message_spec(
                    cfbio::buffer_streams(buffer@),
                    cfbio::buffer_entries(buffer@),
                ) == Err::<EmailMessageView, Error>(e)),
            },
    {
        let mut comp = match cfbio::open_container(buffer) {
            Some(c) => c,
            None => {
                return Err(Error::InvalidContainer);
            },
        };
        EmailMessage::from_cfb(&mut comp)
    }
}

} // verus!
