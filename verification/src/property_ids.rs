//! Well-known property identifiers and the 16-bit property-ID space.

use vstd::prelude::*;

verus! {

/// A well-known property tag from the closed catalogue this crate decodes.
#[derive(Copy, Clone, Debug, PartialEq, Eq, Hash, Structural)]
pub enum Tag {
    /// PidTagSubject, `0x0037`.
    Subject,
    /// PidTagClientSubmitTime, `0x0039`.
    ClientSubmitTime,
    /// PidTagSenderEmailAddress, `0x0C1F`.
    SenderEmailAddress,
    /// PidTagMessageDeliveryTime, `0x0E06`.
    MessageDeliveryTime,
    /// PidTagDisplayName, `0x3001`.
    DisplayName,
    /// PidTagEmailAddress, `0x3003`.
    EmailAddress,
    /// PidTagSmtpAddress, `0x39FE`.
    SmtpAddress,
    /// PidTagAttachDataBinary, `0x3701`.
    AttachDataBinary,
    /// PidTagAttachLongFilename, `0x3707`.
    AttachLongFilename,
    /// PidTagAttachmentHidden, `0x7FFE`.
    AttachmentHidden,
}

/// The 16-bit code of a catalogue tag.
pub open spec fn tag_code(t: Tag) -> u16 {
    match t {
        Tag::Subject => 0x0037,
        Tag::ClientSubmitTime => 0x0039,
        Tag::SenderEmailAddress => 0x0C1F,
        Tag::MessageDeliveryTime => 0x0E06,
        Tag::DisplayName => 0x3001,
        Tag::EmailAddress => 0x3003,
        Tag::SmtpAddress => 0x39FE,
        Tag::AttachDataBinary => 0x3701,
        Tag::AttachLongFilename => 0x3707,
        Tag::AttachmentHidden => 0x7FFE,
    }
}

/// The catalogue tag with a given code, if there is one.
pub open spec fn tag_of_code(n: u16) -> Option<Tag> {
    if n == 0x0037 {
        Some(Tag::Subject)
    } else if n == 0x0039 {
        Some(Tag::ClientSubmitTime)
    } else if n == 0x0C1F {
        Some(Tag::SenderEmailAddress)
    } else if n == 0x0E06 {
        Some(Tag::MessageDeliveryTime)
    } else if n == 0x3001 {
        Some(Tag::DisplayName)
    } else if n == 0x3003 {
        Some(Tag::EmailAddress)
    } else if n == 0x39FE {
        Some(Tag::SmtpAddress)
    } else if n == 0x3701 {
        Some(Tag::AttachDataBinary)
    } else if n == 0x3707 {
        Some(Tag::AttachLongFilename)
    } else if n == 0x7FFE {
        Some(Tag::AttachmentHidden)
    } else {
        None
    }
}

impl Tag {
    /// The catalogue tag for a 16-bit code.
    pub fn from_u16(n: u16) -> (r: Option<Tag>)
        ensures
            r == tag_of_code(n),
    {
        if n == 0x0037 {
            Some(Tag::Subject)
        } else if n == 0x0039 {
            Some(Tag::ClientSubmitTime)
        } else if n == 0x0C1F {
            Some(Tag::SenderEmailAddress)
        } else if n == 0x0E06 {
            Some(Tag::MessageDeliveryTime)
        } else if n == 0x3001 {
            Some(Tag::DisplayName)
        } else if n == 0x3003 {
            Some(Tag::EmailAddress)
        } else if n == 0x39FE {
            Some(Tag::SmtpAddress)
        } else if n == 0x3701 {
            Some(Tag::AttachDataBinary)
        } else if n == 0x3707 {
            Some(Tag::AttachLongFilename)
        } else if n == 0x7FFE {
            Some(Tag::AttachmentHidden)
        } else {
            None
        }
    }

    /// The 16-bit code of this tag.
    pub fn to_u16(self) -> (r: u16)
        ensures
            r == tag_code(self),
    {
        match self {
            Tag::Subject => 0x0037,
            Tag::ClientSubmitTime => 0x0039,
            Tag::SenderEmailAddress => 0x0C1F,
            Tag::MessageDeliveryTime => 0x0E06,
            Tag::DisplayName => 0x3001,
            Tag::EmailAddress => 0x3003,
            Tag::SmtpAddress => 0x39FE,
            Tag::AttachDataBinary => 0x3701,
            Tag::AttachLongFilename => 0x3707,
            Tag::AttachmentHidden => 0x7FFE,
        }
    }
}

/// A 16-bit property identifier.  Values below `0x8000` are well-known
/// tags; values from `0x8000` up are slots of the named-property map.
#[derive(Copy, Clone, Debug, PartialEq, Eq, Hash, Structural)]
pub enum Pid {
    /// A tag of the closed catalogue.
    Tag(Tag),
    /// A named-property slot, `0x8000` or above; the full 16-bit value.
    Named(u16),
    /// A well-known identifier below `0x8000` that is outside the catalogue.
    Other(u16),
}

/// The property identifier a 16-bit value decodes to.
pub open spec fn pid_of_code(n: u16) -> Pid {
    if n >= 0x8000 {
        Pid::Named(n)
    } else {
        match tag_of_code(n) {
            Some(t) => Pid::Tag(t),
            None => Pid::Other(n),
        }
    }
}

/// The 16-bit value of a property identifier.
pub open spec fn pid_code(p: Pid) -> u16 {
    match p {
        Pid::Tag(t) => tag_code(t),
        Pid::Named(n) => n,
        Pid::Other(n) => n,
    }
}

impl Pid {
    /// Decodes a 16-bit property identifier.
    pub fn from_u16(n: u16) -> (r: Self)
        ensures
            r == pid_of_code(n),
    {
        if n >= 0x8000 {
            Pid::Named(n)
        } else {
            match Tag::from_u16(n) {
                Some(t) => Pid::Tag(t),
                None => Pid::Other(n),
            }
        }
    }

    /// The 16-bit value of this identifier.
    pub fn to_u16(self) -> (r: Option<u16>)
        ensures
            r == Some(pid_code(self)),
    {
        match self {
            Pid::Tag(t) => Some(t.to_u16()),
            Pid::Named(n) => Some(n),
            Pid::Other(n) => Some(n),
        }
    }
}

/// Decoding a 16-bit value and encoding it again is the identity on the
/// whole identifier space.
pub proof fn lemma_pid_roundtrip(n: u16)
    ensures
        pid_code(pid_of_code(n)) == n,
{
}

} // verus!
