use vstd::prelude::*;
use vstd::string::to_string_from_display_ensures_for_str;

verus! {

/// Prefix of every device id handed out by this plugin; two characters long.
pub const DEVICE_NAMESPACE: &'static str = "n3";

pub const ROW_COUNT: usize = 3;
pub const COL_COUNT: usize = 3;
pub const KEY_COUNT: usize = 9;
pub const ENCODER_COUNT: usize = 3;

pub const AJAZZ_VID: u16 = 0x0300;
pub const MIRABOX_6602_VID: u16 = 0x6602;
pub const MIRABOX_6603_VID: u16 = 0x6603;
pub const SOOMFON_VID: u16 = 0x1500;
pub const MARS_GAMING_VID: u16 = 0x0B00;
pub const TREASLIN_VID: u16 = 0x5548;
pub const REDRAGON_VID: u16 = 0x0200;

pub const C_1001_PID: u16 = 0x1001;
pub const C_1002_PID: u16 = 0x1002;
pub const C_1003_PID: u16 = 0x1003;
pub const C_2000_PID: u16 = 0x2000;
pub const C_3001_PID: u16 = 0x3001;
pub const C_3002_PID: u16 = 0x3002;
pub const C_3003_PID: u16 = 0x3003;

/// Every device is queried on this HID usage page ...
pub const QUERY_USAGE_PAGE: u16 = 65440;
/// ... and with this HID usage id.
pub const QUERY_USAGE_ID: u16 = 1;

/// The supported device models.
#[derive(Debug, Clone, Copy, PartialEq, Eq, Structural)]
pub enum Kind {
    Akp03,
    Akp03E,
    Akp03R,
    Akp03Erev2,
    Akp03Rrev2,
    N3_6602_1002,
    N3_6603_1002,
    N3_6603_1003,
    SoomfonSE,
    MSDTWO,
    TreasLinN3,
    RedragonSS551,
}

/// The (vendor id, product id) pair that identifies a kind on the USB bus.
pub open spec fn kind_ids(kind: Kind) -> (u16, u16) {
    match kind {
        Kind::Akp03 => (AJAZZ_VID, C_1001_PID),
        Kind::Akp03E => (AJAZZ_VID, C_1002_PID),
        Kind::Akp03R => (AJAZZ_VID, C_1003_PID),
        Kind::Akp03Erev2 => (AJAZZ_VID, C_3002_PID),
        Kind::Akp03Rrev2 => (AJAZZ_VID, C_3003_PID),
        Kind::N3_6602_1002 => (MIRABOX_6602_VID, C_1002_PID),
        Kind::N3_6603_1002 => (MIRABOX_6603_VID, C_1002_PID),
        Kind::N3_6603_1003 => (MIRABOX_6603_VID, C_1003_PID),
        Kind::SoomfonSE => (SOOMFON_VID, C_3001_PID),
        Kind::MSDTWO => (MARS_GAMING_VID, C_1001_PID),
        Kind::TreasLinN3 => (TREASLIN_VID, C_1001_PID),
        Kind::RedragonSS551 => (REDRAGON_VID, C_2000_PID),
    }
}

/// The kind whose identifying pair is `(vid, pid)`, if any.
pub open spec fn kind_of_ids(vid: u16, pid: u16) -> Option<Kind> {
    if vid == AJAZZ_VID && pid == C_1001_PID {
        Some(Kind::Akp03)
    } else if vid == AJAZZ_VID && pid == C_1002_PID {
        Some(Kind::Akp03E)
    } else if vid == AJAZZ_VID && pid == C_1003_PID {
        Some(Kind::Akp03R)
    } else if vid == AJAZZ_VID && pid == C_3002_PID {
        Some(Kind::Akp03Erev2)
    } else if vid == AJAZZ_VID && pid == C_3003_PID {
        Some(Kind::Akp03Rrev2)
    } else if vid == MIRABOX_6602_VID && pid == C_1002_PID {
        Some(Kind::N3_6602_1002)
    } else if vid == MIRABOX_6603_VID && pid == C_1002_PID {
        Some(Kind::N3_6603_1002)
    } else if vid == MIRABOX_6603_VID && pid == C_1003_PID {
        Some(Kind::N3_6603_1003)
    } else if vid == SOOMFON_VID && pid == C_3001_PID {
        Some(Kind::SoomfonSE)
    } else if vid == MARS_GAMING_VID && pid == C_1001_PID {
        Some(Kind::MSDTWO)
    } else if vid == TREASLIN_VID && pid == C_1001_PID {
        Some(Kind::TreasLinN3)
    } else if vid == REDRAGON_VID && pid == C_2000_PID {
        Some(Kind::RedragonSS551)
    } else {
        None
    }
}

impl Kind {
    /// Matches devices VID+PID pairs to correct kinds
    pub fn from_vid_pid(vid: u16, pid: u16) -> (res: Option<Self>)
        ensures
            res == kind_of_ids(vid, pid),
    {
        match vid {
            AJAZZ_VID => match pid {
                C_1001_PID => Some(Kind::Akp03),
                C_1002_PID => Some(Kind::Akp03E),
                C_1003_PID => Some(Kind::Akp03R),
                C_3002_PID => Some(Kind::Akp03Erev2),
                C_3003_PID => Some(Kind::Akp03Rrev2),
                _ => None,
            },
            MIRABOX_6602_VID => match pid {
                C_1002_PID => Some(Kind::N3_6602_1002),
                _ => None,
            },
            MIRABOX_6603_VID => match pid {
                C_1002_PID => Some(Kind::N3_6603_1002),
                C_1003_PID => Some(Kind::N3_6603_1003),
                _ => None,
            },
            SOOMFON_VID => match pid {
                C_3001_PID => Some(Kind::SoomfonSE),
                _ => None,
            },
            MARS_GAMING_VID => match pid {
                C_1001_PID => Some(Kind::MSDTWO),
                _ => None,
            },
            TREASLIN_VID => match pid {
                C_1001_PID => Some(Kind::TreasLinN3),
                _ => None,
            },
            REDRAGON_VID => match pid {
                C_2000_PID => Some(Kind::RedragonSS551),
                _ => None,
            },
            _ => None,
        }
    }
}

impl Kind {
    /// There is no point relying on manufacturer/device names reported by the USB stack,
    /// so we return custom names for all the kinds of devices
    pub fn human_name(&self) -> (res: String)
        ensures
            res@ == human_name_of(*self),
    {
        broadcast use to_string_from_display_ensures_for_str;

        match &self {
            Self::Akp03 => "Ajazz AKP03",
            Self::Akp03E => "Ajazz AKP03E",
            Self::Akp03R => "Ajazz AKP03R",
            Self::Akp03Erev2 => "Ajazz AKP03E (rev. 2)",
            Self::Akp03Rrev2 => "Ajazz AKP03R (rev. 2)",
            Self::N3_6602_1002 => "Mirabox N3 (6602:1002)",
            Self::N3_6603_1002 => "Mirabox N3 (6603:1002)",
            Self::N3_6603_1003 => "Mirabox N3 (6603:1003)",
            Self::SoomfonSE => "Soomfon Stream Controller SE",
            Self::MSDTWO => "Mars Gaming MSD-TWO",
            Self::TreasLinN3 => "TreasLin N3",
            Self::RedragonSS551 => "Redragon Skyrider SS-551",
        }.to_string()
    }

    /// Returns protocol version for device
    pub fn protocol_version(&self) -> (res: usize)
        ensures
            res == protocol_version_of(*self),
    {
        match self {
            Self::N3_6603_1002 | Self::N3_6603_1003 => 3,
            Self::Akp03Erev2 | Self::Akp03Rrev2 => 3,
            Self::SoomfonSE => 3,
            Self::TreasLinN3 => 3,
            Self::RedragonSS551 => 3,
            _ => 2,
        }
    }

    /// The format that button images must be sent in to a device of this kind.
    pub fn image_format(&self) -> (res: ImageFormat)
        ensures
            res == image_format_for_protocol(protocol_version_of(*self)),
    {
        if self.protocol_version() == 3 {
            return ImageFormat {
                mode: ImageMode::JPEG,
                size: (64, 64),
                rotation: ImageRotation::Rot90,
                mirror: ImageMirroring::NoMirror,
            };
        }

        return ImageFormat {
            mode: ImageMode::JPEG,
            size: (60, 60),
            rotation: ImageRotation::Rot0,
            mirror: ImageMirroring::NoMirror,
        };
    }
}

/// The name shown to users for a kind of device.
pub open spec fn human_name_of(kind: Kind) -> Seq<char> {
    match kind {
        Kind::Akp03 => "Ajazz AKP03"@,
        Kind::Akp03E => "Ajazz AKP03E"@,
        Kind::Akp03R => "Ajazz AKP03R"@,
        Kind::Akp03Erev2 => "Ajazz AKP03E (rev. 2)"@,
        Kind::Akp03Rrev2 => "Ajazz AKP03R (rev. 2)"@,
        Kind::N3_6602_1002 => "Mirabox N3 (6602:1002)"@,
        Kind::N3_6603_1002 => "Mirabox N3 (6603:1002)"@,
        Kind::N3_6603_1003 => "Mirabox N3 (6603:1003)"@,
        Kind::SoomfonSE => "Soomfon Stream Controller SE"@,
        Kind::MSDTWO => "Mars Gaming MSD-TWO"@,
        Kind::TreasLinN3 => "TreasLin N3"@,
        Kind::RedragonSS551 => "Redragon Skyrider SS-551"@,
    }
}

/// The newer devices speak protocol 3; the first generation speaks protocol 2.
pub open spec fn protocol_version_of(kind: Kind) -> usize {
    match kind {
        Kind::N3_6603_1002 | Kind::N3_6603_1003 => 3,
        Kind::Akp03Erev2 | Kind::Akp03Rrev2 => 3,
        Kind::SoomfonSE => 3,
        Kind::TreasLinN3 => 3,
        Kind::RedragonSS551 => 3,
        _ => 2,
    }
}

/// Protocol 3 takes 64x64 JPEG images turned by 90 degrees;
/// every other protocol takes 60x60 JPEG images as they are.
pub open spec fn image_format_for_protocol(version: usize) -> ImageFormat {
    if version == 3 {
        ImageFormat {
            mode: ImageMode::JPEG,
            size: (64, 64),
            rotation: ImageRotation::Rot90,
            mirror: ImageMirroring::NoMirror,
        }
    } else {
        ImageFormat {
            mode: ImageMode::JPEG,
            size: (60, 60),
            rotation: ImageRotation::Rot0,
            mirror: ImageMirroring::NoMirror,
        }
    }
}

/// Image encoding that a device accepts.
#[derive(Debug, Clone, Copy, PartialEq, Eq, Structural)]
pub enum ImageMode {
    NoImage,
    BMP,
    JPEG,
}

/// Rotation applied to an image before it is sent.
#[derive(Debug, Clone, Copy, PartialEq, Eq, Structural)]
pub enum ImageRotation {
    Rot0,
    Rot90,
    Rot180,
    Rot270,
}

/// Mirroring applied to an image before it is sent.
#[derive(Debug, Clone, Copy, PartialEq, Eq, Structural)]
pub enum ImageMirroring {
    NoMirror,
    X,
    Y,
    Both,
}

/// Image format used by a device: encoding, size in pixels, rotation and mirroring.
#[derive(Debug, Clone, Copy)]
pub struct ImageFormat {
    pub mode: ImageMode,
    pub size: (usize, usize),
    pub rotation: ImageRotation,
    pub mirror: ImageMirroring,
}

/// The (vendor id, product id) pairs that the device queries look for, in query order.
pub open spec fn query_ids_spec() -> Seq<(u16, u16)> {
    seq![
        (AJAZZ_VID, C_1001_PID),
        (AJAZZ_VID, C_1002_PID),
        (AJAZZ_VID, C_1003_PID),
        (AJAZZ_VID, C_3002_PID),
        (AJAZZ_VID, C_3003_PID),
        (MIRABOX_6602_VID, C_1002_PID),
        (MIRABOX_6603_VID, C_1002_PID),
        (MIRABOX_6603_VID, C_1003_PID),
        (SOOMFON_VID, C_3001_PID),
        (MARS_GAMING_VID, C_1001_PID),
        (TREASLIN_VID, C_1001_PID),
        (REDRAGON_VID, C_2000_PID),
    ]
}

/// The (vendor id, product id) pair of every device query, in query order;
/// every query uses `QUERY_USAGE_PAGE` and `QUERY_USAGE_ID`.
pub fn query_ids() -> (res: Vec<(u16, u16)>)
    ensures
        res@ == query_ids_spec(),
{
    let res = vec![
        (AJAZZ_VID, C_1001_PID),
        (AJAZZ_VID, C_1002_PID),
        (AJAZZ_VID, C_1003_PID),
        (AJAZZ_VID, C_3002_PID),
        (AJAZZ_VID, C_3003_PID),
        (MIRABOX_6602_VID, C_1002_PID),
        (MIRABOX_6603_VID, C_1002_PID),
        (MIRABOX_6603_VID, C_1003_PID),
        (SOOMFON_VID, C_3001_PID),
        (MARS_GAMING_VID, C_1001_PID),
        (TREASLIN_VID, C_1001_PID),
        (REDRAGON_VID, C_2000_PID),
    ];
    assert(res@ =~= query_ids_spec());
    res
}

/// What the logic reads of a HID device: its ids and serial number.
/// `handle` carries the caller's own description of the device along, untouched.
#[derive(Debug, Clone)]
pub struct DeviceInfo<H> {
    pub vendor_id: u16,
    pub product_id: u16,
    pub serial_number: Option<String>,
    pub handle: H,
}

/// A connected device of a supported kind, with the id it is managed under.
#[derive(Debug, Clone)]
pub struct CandidateDevice<H> {
    pub id: String,
    pub dev: DeviceInfo<H>,
    pub kind: Kind,
}

} // verus!
