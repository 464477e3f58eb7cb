//! The closed catalogue of well-known MAPI property-set GUIDs.

use vstd::prelude::*;
use crate::guid::Guid;

verus! {

/// A property-set namespace for named properties.  The catalogue is closed;
/// any other GUID is retained verbatim in `Other`.
#[derive(Copy, Clone, Debug, PartialEq, Eq, Hash, Structural)]
pub enum PropertySet {
    PublicStrings,
    Common,
    Address,
    Headers,
    Appointment,
    Meeting,
    Log,
    Messaging,
    Note,
    PostRss,
    Task,
    UnifiedMessaging,
    PsMapi,
    AirSync,
    Sharing,
    XmlExtrEntities,
    Attachment,
    CalendarAssistant,
    Other(Guid),
}

pub const PUBLIC_STRINGS: u128 = 0x00020329_0000_0000_C000_0000_0000_0046;

pub const COMMON: u128 = 0x00062008_0000_0000_C000_0000_0000_0046;

pub const ADDRESS: u128 = 0x00062004_0000_0000_C000_0000_0000_0046;

pub const HEADERS: u128 = 0x00020386_0000_0000_C000_0000_0000_0046;

pub const APPOINTMENT: u128 = 0x00062002_0000_0000_C000_0000_0000_0046;

pub const MEETING: u128 = 0x6ED8DA90_450B_101B_98DA_00AA003F1305;

pub const LOG: u128 = 0x0006200A_0000_0000_C000_0000_0000_0046;

pub const MESSAGING: u128 = 0x41F28F13_83F4_4114_A584_EEDB5A6B0BFF;

pub const NOTE: u128 = 0x0006200E_0000_0000_C000_0000_0000_0046;

pub const POST_RSS: u128 = 0x00062041_0000_0000_C000_0000_0000_0046;

pub const TASK: u128 = 0x00062003_0000_0000_C000_0000_0000_0046;

pub const UNIFIED_MESSAGING: u128 = 0x4442858E_A9E3_4E80_B900_317A210CC15B;

pub const PS_MAPI: u128 = 0x00020328_0000_0000_C000_0000_0000_0046;

pub const AIR_SYNC: u128 = 0x71035549_0739_4DCB_9163_00F0580DBBDF;

pub const SHARING: u128 = 0x00062040_0000_0000_C000_0000_0000_0046;

pub const XML_EXTR_ENTITIES: u128 = 0x23239608_685D_4732_9C55_4C95CB4E8E33;

pub const ATTACHMENT: u128 = 0x96357F7F_59E1_47D0_99A7_46515C183B54;

pub const CALENDAR_ASSISTANT: u128 = 0x11000E07_B51B_40D6_AF21_CAA85EDAB1D0;

/// The GUID that names a property set.
pub open spec fn property_set_guid(s: PropertySet) -> Guid {
    match s {
        PropertySet::PublicStrings => Guid(PUBLIC_STRINGS),
        PropertySet::Common => Guid(COMMON),
        PropertySet::Address => Guid(ADDRESS),
        PropertySet::Headers => Guid(HEADERS),
        PropertySet::Appointment => Guid(APPOINTMENT),
        PropertySet::Meeting => Guid(MEETING),
        PropertySet::Log => Guid(LOG),
        PropertySet::Messaging => Guid(MESSAGING),
        PropertySet::Note => Guid(NOTE),
        PropertySet::PostRss => Guid(POST_RSS),
        PropertySet::Task => Guid(TASK),
        PropertySet::UnifiedMessaging => Guid(UNIFIED_MESSAGING),
        PropertySet::PsMapi => Guid(PS_MAPI),
        PropertySet::AirSync => Guid(AIR_SYNC),
        PropertySet::Sharing => Guid(SHARING),
        PropertySet::XmlExtrEntities => Guid(XML_EXTR_ENTITIES),
        PropertySet::Attachment => Guid(ATTACHMENT),
        PropertySet::CalendarAssistant => Guid(CALENDAR_ASSISTANT),
        PropertySet::Other(guid) => guid,
    }
}

/// The property set a GUID names: a catalogue member when the value is one
/// of the eighteen well-known GUIDs, `Other` otherwise.
pub open spec fn property_set_of_guid(g: Guid) -> PropertySet {
    if g.0 == PUBLIC_STRINGS {
        PropertySet::PublicStrings
    } else if g.0 == COMMON {
        PropertySet::Common
    } else if g.0 == ADDRESS {
        PropertySet::Address
    } else if g.0 == HEADERS {
        PropertySet::Headers
    } else if g.0 == APPOINTMENT {
        PropertySet::Appointment
    } else if g.0 == MEETING {
        PropertySet::Meeting
    } else if g.0 == LOG {
        PropertySet::Log
    } else if g.0 == MESSAGING {
        PropertySet::Messaging
    } else if g.0 == NOTE {
        PropertySet::Note
    } else if g.0 == POST_RSS {
        PropertySet::PostRss
    } else if g.0 == TASK {
        PropertySet::Task
    } else if g.0 == UNIFIED_MESSAGING {
        PropertySet::UnifiedMessaging
    } else if g.0 == PS_MAPI {
        PropertySet::PsMapi
    } else if g.0 == AIR_SYNC {
        PropertySet::AirSync
    } else if g.0 == SHARING {
        PropertySet::Sharing
    } else if g.0 == XML_EXTR_ENTITIES {
        PropertySet::XmlExtrEntities
    } else if g.0 == ATTACHMENT {
        PropertySet::Attachment
    } else if g.0 == CALENDAR_ASSISTANT {
        PropertySet::CalendarAssistant
    } else {
        PropertySet::Other(g)
    }
}

impl PropertySet {
    /// The GUID of this property set.
    pub fn to_uuid(&self) -> (r: Guid)
        ensures
            r == property_set_guid(*self),
    {
        match self {
            Self::PublicStrings => Guid(PUBLIC_STRINGS),
            Self::Common => Guid(COMMON),
            Self::Address => Guid(ADDRESS),
            Self::Headers => Guid(HEADERS),
            Self::Appointment => Guid(APPOINTMENT),
            Self::Meeting => Guid(MEETING),
            Self::Log => Guid(LOG),
            Self::Messaging => Guid(MESSAGING),
            Self::Note => Guid(NOTE),
            Self::PostRss => Guid(POST_RSS),
            Self::Task => Guid(TASK),
            Self::UnifiedMessaging => Guid(UNIFIED_MESSAGING),
            Self::PsMapi => Guid(PS_MAPI),
            Self::AirSync => Guid(AIR_SYNC),
            Self::Sharing => Guid(SHARING),
            Self::XmlExtrEntities => Guid(XML_EXTR_ENTITIES),
            Self::Attachment => Guid(ATTACHMENT),
            Self::CalendarAssistant => Guid(CALENDAR_ASSISTANT),
            Self::Other(guid) => *guid,
        }
    }

    /// The conventional name of this property set.
    pub fn to_string(&self) -> (r: &'static str) {
        match self {
            Self::PublicStrings => "PS_PUBLIC_STRINGS",
            Self::Common => "PSETID_Common",
            Self::Address => "PSETID_Address",
            Self::Headers => "PS_INTERNET_HEADERS",
            Self::Appointment => "PSETID_Appointment",
            Self::Meeting => "PSETID_Meeting",
            Self::Log => "PSETID_Log",
            Self::Messaging => "PSETID_Messaging",
            Self::Note => "PSETID_Note",
            Self::PostRss => "PSETID_PostRss",
            Self::Task => "PSETID_Task",
            Self::UnifiedMessaging => "PSETID_UnifiedMessaging",
            Self::PsMapi => "PS_MAPI",
            Self::AirSync => "PSETID_AirSync",
            Self::Sharing => "PSETID_Sharing",
            Self::XmlExtrEntities => "PSETID_XmlExtractedEntities",
            Self::Attachment => "PSETID_Attachment",
            Self::CalendarAssistant => "PSETID_CalendarAssistant",
            Self::Other(_) => "Other",
        }
    }

    /// The property set a GUID names.
    pub fn from_uuid(uuid: Guid) -> (r: PropertySet)
        ensures
            r == property_set_of_guid(uuid),
    {
        if uuid.0 == PUBLIC_STRINGS {
            Self::PublicStrings
        } else if uuid.0 == COMMON {
            Self::Common
        } else if uuid.0 == ADDRESS {
            Self::Address
        } else if uuid.0 == HEADERS {
            Self::Headers
        } else if uuid.0 == APPOINTMENT {
            Self::Appointment
        } else if uuid.0 == MEETING {
            Self::Meeting
        } else if uuid.0 == LOG {
            Self::Log
        } else if uuid.0 == MESSAGING {
            Self::Messaging
        } else if uuid.0 == NOTE {
            Self::Note
        } else if uuid.0 == POST_RSS {
            Self::PostRss
        } else if uuid.0 == TASK {
            Self::Task
        } else if uuid.0 == UNIFIED_MESSAGING {
            Self::UnifiedMessaging
        } else if uuid.0 == PS_MAPI {
            Self::PsMapi
        } else if uuid.0 == AIR_SYNC {
            Self::AirSync
        } else if uuid.0 == SHARING {
            Self::Sharing
        } else if uuid.0 == XML_EXTR_ENTITIES {
            Self::XmlExtrEntities
        } else if uuid.0 == ATTACHMENT {
            Self::Attachment
        } else if uuid.0 == CALENDAR_ASSISTANT {
            Self::CalendarAssistant
        } else {
            Self::Other(uuid)
        }
    }
}

/// Every property set of the closed catalogue is recovered exactly from its
/// own GUID.
pub proof fn lemma_property_set_roundtrip(s: PropertySet)
    requires
        !(s is Other),
    ensures
        property_set_of_guid(property_set_guid(s)) == s,
{
}

/// A GUID outside the catalogue is retained verbatim, so it also round
/// trips through `Other`.
pub proof fn lemma_other_guid_roundtrip(g: Guid)
    requires
        property_set_of_guid(g) is Other,
    ensures
        property_set_guid(property_set_of_guid(g)) == g,
{
}

} // verus!
