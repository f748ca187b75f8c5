//! Label geometry table and USB identifiers.

use vstd::prelude::*;

verus! {

/// A pair of measurements: across the tape (`.0`) and along the feed
/// direction (`.1`).
#[derive(Clone, Copy, Debug, PartialEq, Eq, Structural)]
pub struct WidthLength(pub u32, pub u32);

/// Geometry of one kind of label media.
///
/// `tape_size` is in millimetres, everything else in dots. A length of zero
/// marks continuous tape.
#[derive(Clone, Copy, Debug, PartialEq, Eq, Structural)]
pub struct Label {
    pub tape_size: WidthLength,
    pub dots: WidthLength,
    pub dots_printable: WidthLength,
    pub right_margin: u32,
    pub feed_margin: u32,
}

impl Label {
    /// The printable area never exceeds the total area, and continuous tape
    /// has no extent along the feed direction.
    pub open spec fn well_formed(self) -> bool {
        &&& self.dots_printable.0 <= self.dots.0
        &&& self.dots_printable.1 <= self.dots.1
        &&& self.tape_size.1 == 0 ==> self.dots.1 == 0 && self.dots_printable.1 == 0
        &&& self.tape_size.1 != 0 ==> self.dots.1 != 0 && self.dots_printable.1 != 0
    }

    /// Continuous tape, as opposed to die-cut labels.
    pub open spec fn is_continuous(self) -> bool {
        self.tape_size.1 == 0
    }
}

/// One row of the geometry table.
pub open spec fn entry(
    tape: (int, int),
    dots: (int, int),
    printable: (int, int),
    right_margin: int,
    feed_margin: int,
) -> Label {
    Label {
        tape_size: WidthLength(tape.0 as u32, tape.1 as u32),
        dots: WidthLength(dots.0 as u32, dots.1 as u32),
        dots_printable: WidthLength(printable.0 as u32, printable.1 as u32),
        right_margin: right_margin as u32,
        feed_margin: feed_margin as u32,
    }
}

/// The continuous-tape table, keyed by the tape width in millimetres.
pub open spec fn continuous_label(width: u8) -> Option<Label> {
    if width == 12 {
        Some(entry((12, 0), (142, 0), (106, 0), 29, 35))
    } else if width == 29 {
        Some(entry((29, 0), (342, 0), (306, 0), 6, 35))
    } else if width == 38 {
        Some(entry((38, 0), (449, 0), (413, 0), 12, 35))
    } else if width == 50 {
        Some(entry((50, 0), (590, 0), (554, 0), 12, 35))
    } else if width == 54 {
        Some(entry((54, 0), (636, 0), (590, 0), 0, 35))
    } else if width == 62 {
        Some(entry((62, 0), (732, 0), (696, 0), 12, 35))
    } else if width == 102 {
        Some(entry((102, 0), (1200, 0), (1164, 0), 12, 35))
    } else {
        None
    }
}

/// The die-cut table, keyed by the label's width and length in millimetres.
pub open spec fn die_cut_label(width: u8, length: u8) -> Option<Label> {
    if width == 17 && length == 54 {
        Some(entry((17, 54), (201, 636), (165, 566), 0, 0))
    } else if width == 17 && length == 87 {
        Some(entry((17, 87), (201, 1026), (165, 956), 0, 0))
    } else if width == 23 && length == 23 {
        Some(entry((23, 23), (272, 272), (202, 202), 42, 0))
    } else if width == 29 && length == 42 {
        Some(entry((29, 42), (342, 495), (306, 425), 6, 0))
    } else if width == 29 && length == 90 {
        Some(entry((29, 90), (342, 1061), (306, 991), 6, 0))
    } else if width == 39 && length == 90 {
        Some(entry((38, 90), (449, 1061), (413, 991), 12, 0))
    } else if width == 39 && length == 48 {
        Some(entry((39, 48), (461, 565), (425, 495), 6, 0))
    } else if width == 52 && length == 29 {
        Some(entry((52, 29), (614, 341), (578, 271), 0, 0))
    } else if width == 62 && length == 29 {
        Some(entry((62, 29), (732, 341), (696, 271), 12, 0))
    } else if width == 62 && length == 100 {
        Some(entry((62, 100), (732, 1179), (696, 1109), 12, 0))
    } else {
        None
    }
}

/// The geometry of the media with the given width and, for die-cut labels,
/// length; `None` for media the table does not know.
pub open spec fn label_of(width: u8, length: Option<u8>) -> Option<Label> {
    match length {
        Some(length) => die_cut_label(width, length),
        None => continuous_label(width),
    }
}

/// Looks up the geometry of the loaded media. `height` is the width of the
/// tape in millimetres; `width` is the length of a die-cut label, or `None`
/// for continuous tape.
pub fn label_data(height: u8, width: Option<u8>) -> (label: Option<Label>)
    ensures
        label == label_of(height, width),
        label matches Some(found) ==> found.well_formed(),
{
    proof {
        lemma_label_well_formed(height, width);
    }
    if let Some(width) = width {
        // Die cut label
        match (height, width) {
            (17, 54) => Some(
                Label {
                    tape_size: WidthLength(17, 54),
                    dots: WidthLength(201, 636),
                    dots_printable: WidthLength(165, 566),
                    right_margin: 0,
                    feed_margin: 0,
                },
            ),
            (17, 87) => Some(
                Label {
                    tape_size: WidthLength(17, 87),
                    dots: WidthLength(201, 1026),
                    dots_printable: WidthLength(165, 956),
                    right_margin: 0,
                    feed_margin: 0,
                },
            ),
            (23, 23) => Some(
                Label {
                    tape_size: WidthLength(23, 23),
                    dots: WidthLength(272, 272),
                    dots_printable: WidthLength(202, 202),
                    right_margin: 42,
                    feed_margin: 0,
                },
            ),
            (29, 42) => Some(
                Label {
                    tape_size: WidthLength(29, 42),
                    dots: WidthLength(342, 495),
                    dots_printable: WidthLength(306, 425),
                    right_margin: 6,
                    feed_margin: 0,
                },
            ),
            (29, 90) => Some(
                Label {
                    tape_size: WidthLength(29, 90),
                    dots: WidthLength(342, 1061),
                    dots_printable: WidthLength(306, 991),
                    right_margin: 6,
                    feed_margin: 0,
                },
            ),
            (39, 90) => Some(
                Label {
                    tape_size: WidthLength(38, 90),
                    dots: WidthLength(449, 1061),
                    dots_printable: WidthLength(413, 991),
                    right_margin: 12,
                    feed_margin: 0,
                },
            ),
            (39, 48) => Some(
                Label {
                    tape_size: WidthLength(39, 48),
                    dots: WidthLength(461, 565),
                    dots_printable: WidthLength(425, 495),
                    right_margin: 6,
                    feed_margin: 0,
                },
            ),
            (52, 29) => Some(
                Label {
                    tape_size: WidthLength(52, 29),
                    dots: WidthLength(614, 341),
                    dots_printable: WidthLength(578, 271),
                    right_margin: 0,
                    feed_margin: 0,
                },
            ),
            (62, 29) => Some(
                Label {
                    tape_size: WidthLength(62, 29),
                    dots: WidthLength(732, 341),
                    dots_printable: WidthLength(696, 271),
                    right_margin: 12,
                    feed_margin: 0,
                },
            ),
            (62, 100) => Some(
                Label {
                    tape_size: WidthLength(62, 100),
                    dots: WidthLength(732, 1179),
                    dots_printable: WidthLength(696, 1109),
                    right_margin: 12,
                    feed_margin: 0,
                },
            ),
            _ => None,
        }
    } else {
        // Continuous label
        match height {
            12 => Some(
                Label {
                    tape_size: WidthLength(12, 0),
                    dots: WidthLength(142, 0),
                    dots_printable: WidthLength(106, 0),
                    right_margin: 29,
                    feed_margin: 35,
                },
            ),
            29 => Some(
                Label {
                    tape_size: WidthLength(29, 0),
                    dots: WidthLength(342, 0),
                    dots_printable: WidthLength(306, 0),
                    right_margin: 6,
                    feed_margin: 35,
                },
            ),
            38 => Some(
                Label {
                    tape_size: WidthLength(38, 0),
                    dots: WidthLength(449, 0),
                    dots_printable: WidthLength(413, 0),
                    right_margin: 12,
                    feed_margin: 35,
                },
            ),
            50 => Some(
                Label {
                    tape_size: WidthLength(50, 0),
                    dots: WidthLength(590, 0),
                    dots_printable: WidthLength(554, 0),
                    right_margin: 12,
                    feed_margin: 35,
                },
            ),
            54 => Some(
                Label {
                    tape_size: WidthLength(54, 0),
                    dots: WidthLength(636, 0),
                    dots_printable: WidthLength(590, 0),
                    right_margin: 0,
                    feed_margin: 35,
                },
            ),
            62 => Some(
                Label {
                    tape_size: WidthLength(62, 0),
                    dots: WidthLength(732, 0),
                    dots_printable: WidthLength(696, 0),
                    right_margin: 12,
                    feed_margin: 35,
                },
            ),
            102 => Some(
                Label {
                    tape_size: WidthLength(102, 0),
                    dots: WidthLength(1200, 0),
                    dots_printable: WidthLength(1164, 0),
                    right_margin: 12,
                    feed_margin: 35,
                },
            ),
            _ => None,
        }
    }
}

/// Every entry of the table is well formed, and an entry is continuous tape
/// exactly when it was looked up without a length.
pub proof fn lemma_label_well_formed(width: u8, length: Option<u8>)
    ensures
        label_of(width, length) matches Some(label) ==> {
            &&& label.well_formed()
            &&& label.is_continuous() <==> length is None
            &&& label.dots.0 <= 1200
            &&& label.dots.1 <= 1179
            &&& label.right_margin <= 42
            &&& label.feed_margin <= 35
        },
{
}

/// The table knows seven widths of continuous tape and ten die-cut sizes,
/// and nothing else.
pub proof fn lemma_known_media(width: u8, length: Option<u8>)
    ensures
        label_of(width, length) is Some <==> match length {
            None => width == 12 || width == 29 || width == 38 || width == 50 || width == 54
                || width == 62 || width == 102,
            Some(l) => (width == 17 && (l == 54 || l == 87)) || (width == 23 && l == 23) || (width
                == 29 && (l == 42 || l == 90)) || (width == 39 && (l == 90 || l == 48)) || (width
                == 52 && l == 29) || (width == 62 && (l == 29 || l == 100)),
        },
{
}

/// USB vendor identifier shared by every supported printer.
pub const VENDOR_ID: u16 = 0x04F9;

/// The model name that belongs to a USB product identifier.
pub open spec fn product_name(id: u16) -> Option<Seq<char>> {
    if id == 0x2015 {
        Some("QL-500"@)
    } else if id == 0x2016 {
        Some("QL-550"@)
    } else if id == 0x2027 {
        Some("QL-560"@)
    } else if id == 0x2028 {
        Some("QL-570"@)
    } else if id == 0x2029 {
        Some("QL-580N"@)
    } else if id == 0x201B {
        Some("QL-650TD"@)
    } else if id == 0x2042 {
        Some("QL-700"@)
    } else if id == 0x2020 {
        Some("QL-1050"@)
    } else if id == 0x202A {
        Some("QL-1060N"@)
    } else {
        None
    }
}

/// The model name of a supported printer, by its USB product identifier.
pub fn printer_name_from_id(id: u16) -> (name: Option<&'static str>)
    ensures
        name is Some <==> product_name(id) is Some,
        name matches Some(n) ==> Some(n@) == product_name(id),
{
    match id {
        0x2015 => Some("QL-500"),
        0x2016 => Some("QL-550"),
        0x2027 => Some("QL-560"),
        0x2028 => Some("QL-570"),
        0x2029 => Some("QL-580N"),
        0x201B => Some("QL-650TD"),
        0x2042 => Some("QL-700"),
        0x2020 => Some("QL-1050"),
        0x202A => Some("QL-1060N"),
        _ => None,
    }
}

} // verus!
