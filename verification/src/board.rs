//! What a KiCad export reports about a board, and the TOML text of each part.
//!
//! Every measurement is a [`Fixed6`]: the exporter's value rounded to the six
//! decimal places that the TOML files carry.

use vstd::prelude::*;
use crate::decimal::{Fixed6, fixed6_text, format_fixed6};

verus! {

/// The TOML text of a boolean.
pub open spec fn bool_text(b: bool) -> Seq<char> {
    if b {
        "true"@
    } else {
        "false"@
    }
}

/// Both numbers of a pair are well formed.
pub open spec fn pair_wf(p: (Fixed6, Fixed6)) -> bool {
    p.0.wf() && p.1.wf()
}

/// All three numbers of a triple are well formed.
pub open spec fn triple_wf(t: (Fixed6, Fixed6, Fixed6)) -> bool {
    t.0.wf() && t.1.wf() && t.2.wf()
}

/// The TOML array text `[ a, b ]` of a pair.
pub open spec fn pair_text(p: (Fixed6, Fixed6)) -> Seq<char> {
    "[ "@ + fixed6_text(p.0) + ", "@ + fixed6_text(p.1) + " ]"@
}

/// The TOML array text `[ a, b, c ]` of a triple.
pub open spec fn triple_text(t: (Fixed6, Fixed6, Fixed6)) -> Seq<char> {
    "[ "@ + fixed6_text(t.0) + ", "@ + fixed6_text(t.1) + ", "@ + fixed6_text(t.2) + " ]"@
}

/// Appends the text of a number.
fn append_fixed6(s: &mut String, f: &Fixed6)
    requires
        f.wf(),
    ensures
        final(s)@ == old(s)@ + fixed6_text(*f),
{
    let t = format_fixed6(f);
    s.append(t.as_str());
}

/// Appends the TOML array text of a pair.
fn append_pair(s: &mut String, p: &(Fixed6, Fixed6))
    requires
        pair_wf(*p),
    ensures
        final(s)@ == old(s)@ + pair_text(*p),
{
    let ghost s0 = s@;
    s.append("[ ");
    append_fixed6(s, &p.0);
    s.append(", ");
    append_fixed6(s, &p.1);
    s.append(" ]");
    assert(s@ =~= s0 + pair_text(*p));
}

/// Appends the TOML array text of a triple.
fn append_triple(s: &mut String, t: &(Fixed6, Fixed6, Fixed6))
    requires
        triple_wf(*t),
    ensures
        final(s)@ == old(s)@ + triple_text(*t),
{
    let ghost s0 = s@;
    s.append("[ ");
    append_fixed6(s, &t.0);
    s.append(", ");
    append_fixed6(s, &t.1);
    s.append(", ");
    append_fixed6(s, &t.2);
    s.append(" ]");
    assert(s@ =~= s0 + triple_text(*t));
}

/// Appends the TOML text of a boolean.
fn append_bool(s: &mut String, b: bool)
    ensures
        final(s)@ == old(s)@ + bool_text(b),
{
    if b {
        s.append("true");
    } else {
        s.append("false");
    }
}

/// The outline of a board: its top-left corner and its size.
pub struct Bounds {
    pub top_left: (Fixed6, Fixed6),
    pub size: (Fixed6, Fixed6),
}

/// The TOML text of a [`Bounds`].
pub open spec fn bounds_toml(b: Bounds) -> Seq<char> {
    "top_left = "@ + pair_text(b.top_left) + "\nsize = "@ + pair_text(b.size)
}

impl Bounds {
    /// Every number is well formed.
    pub open spec fn wf(&self) -> bool {
        pair_wf(self.top_left) && pair_wf(self.size)
    }

    /// The TOML text of the outline.
    pub fn to_toml(&self) -> (s: String)
        requires
            self.wf(),
        ensures
            s@ == bounds_toml(*self),
    {
        let mut s = "top_left = ".to_owned();
        append_pair(&mut s, &self.top_left);
        s.append("\nsize = ");
        append_pair(&mut s, &self.size);
        assert(s@ =~= bounds_toml(*self));
        s
    }
}

/// The layer stackup and finish of a board.
pub struct Stackup {
    pub thickness_mm: Fixed6,
    pub mask_color: String,
    pub mask_color_custom: (Fixed6, Fixed6, Fixed6),
    pub silks_color: String,
    pub silks_color_custom: (Fixed6, Fixed6, Fixed6),
    pub surface_finish: String,
}

/// The TOML text of a [`Stackup`].
pub open spec fn stackup_toml(st: Stackup) -> Seq<char> {
    "thickness_mm = "@ + fixed6_text(st.thickness_mm) + "\nmask_color = \""@ + st.mask_color@
        + "\"\nmask_color_custom = "@ + triple_text(st.mask_color_custom)
        + "\nsilks_color = \""@ + st.silks_color@ + "\"\nsilks_color_custom = "@ + triple_text(
        st.silks_color_custom,
    ) + "\nsurface_finish = \""@ + st.surface_finish@ + "\""@
}

impl Stackup {
    /// Every number is well formed.
    pub open spec fn wf(&self) -> bool {
        self.thickness_mm.wf() && triple_wf(self.mask_color_custom) && triple_wf(
            self.silks_color_custom,
        )
    }

    /// The TOML text of the stackup.
    pub fn to_toml(&self) -> (s: String)
        requires
            self.wf(),
        ensures
            s@ == stackup_toml(*self),
    {
        let mut s = "thickness_mm = ".to_owned();
        append_fixed6(&mut s, &self.thickness_mm);
        s.append("\nmask_color = \"");
        s.append(self.mask_color.as_str());
        s.append("\"\nmask_color_custom = ");
        append_triple(&mut s, &self.mask_color_custom);
        s.append("\nsilks_color = \"");
        s.append(self.silks_color.as_str());
        s.append("\"\nsilks_color_custom = ");
        append_triple(&mut s, &self.silks_color_custom);
        s.append("\nsurface_finish = \"");
        s.append(self.surface_finish.as_str());
        s.append("\"");
        assert(s@ =~= stackup_toml(*self));
        s
    }
}

impl Default for Stackup {
    /// A 1.6 mm board with green mask, white silkscreen and a HASL finish.
    fn default() -> (st: Self)
        ensures
            st.thickness_mm == (Fixed6::Finite { negative: false, whole: 1, micros: 600_000 }),
            st.mask_color@ == "GREEN"@,
            st.mask_color_custom == (Fixed6::zero_spec(), Fixed6::zero_spec(), Fixed6::zero_spec()),
            st.silks_color@ == "WHITE"@,
            st.silks_color_custom == (Fixed6::zero_spec(), Fixed6::zero_spec(), Fixed6::zero_spec()),
            st.surface_finish@ == "HASL"@,
            st.wf(),
    {
        Stackup {
            thickness_mm: Fixed6::Finite { negative: false, whole: 1, micros: 600_000 },
            mask_color: "GREEN".to_owned(),
            mask_color_custom: (Fixed6::zero(false), Fixed6::zero(false), Fixed6::zero(false)),
            silks_color: "WHITE".to_owned(),
            silks_color_custom: (Fixed6::zero(false), Fixed6::zero(false), Fixed6::zero(false)),
            surface_finish: "HASL".to_owned(),
        }
    }
}

/// How a pad is mounted, as KiCad classifies it.
#[derive(Clone, Copy, Debug, PartialEq, Eq)]
pub enum PadType {
    Unknown,
    Tht,
    Smd,
    Conn,
    Npth,
}

impl PadType {
    /// The variant's name, as the TOML files write it.
    pub open spec fn label_text(self) -> Seq<char> {
        match self {
            PadType::Unknown => "Unknown"@,
            PadType::Tht => "Tht"@,
            PadType::Smd => "Smd"@,
            PadType::Conn => "Conn"@,
            PadType::Npth => "Npth"@,
        }
    }

    /// The variant's name.
    pub fn label(&self) -> (s: &'static str)
        ensures
            s@ == self.label_text(),
    {
        match self {
            PadType::Unknown => "Unknown",
            PadType::Tht => "Tht",
            PadType::Smd => "Smd",
            PadType::Conn => "Conn",
            PadType::Npth => "Npth",
        }
    }
}

/// The outline of a pad.
#[derive(Clone, Copy, Debug, PartialEq, Eq)]
pub enum PadShape {
    Unknown,
    Circle,
    Rect,
    Oval,
    Trapezoid,
    RoundRect,
    ChamferedRect,
    Custom,
}

impl PadShape {
    /// The variant's name, as the TOML files write it.
    pub open spec fn label_text(self) -> Seq<char> {
        match self {
            PadShape::Unknown => "Unknown"@,
            PadShape::Circle => "Circle"@,
            PadShape::Rect => "Rect"@,
            PadShape::Oval => "Oval"@,
            PadShape::Trapezoid => "Trapezoid"@,
            PadShape::RoundRect => "RoundRect"@,
            PadShape::ChamferedRect => "ChamferedRect"@,
            PadShape::Custom => "Custom"@,
        }
    }

    /// The variant's name.
    pub fn label(&self) -> (s: &'static str)
        ensures
            s@ == self.label_text(),
    {
        match self {
            PadShape::Unknown => "Unknown",
            PadShape::Circle => "Circle",
            PadShape::Rect => "Rect",
            PadShape::Oval => "Oval",
            PadShape::Trapezoid => "Trapezoid",
            PadShape::RoundRect => "RoundRect",
            PadShape::ChamferedRect => "ChamferedRect",
            PadShape::Custom => "Custom",
        }
    }
}

/// The outline of a drill hole.
#[derive(Clone, Copy, Debug, PartialEq, Eq)]
pub enum DrillShape {
    Unknown,
    Circular,
    Oval,
}

impl DrillShape {
    /// The variant's name, as the TOML files write it.
    pub open spec fn label_text(self) -> Seq<char> {
        match self {
            DrillShape::Unknown => "Unknown"@,
            DrillShape::Circular => "Circular"@,
            DrillShape::Oval => "Oval"@,
        }
    }

    /// The variant's name.
    pub fn label(&self) -> (s: &'static str)
        ensures
            s@ == self.label_text(),
    {
        match self {
            DrillShape::Unknown => "Unknown",
            DrillShape::Circular => "Circular",
            DrillShape::Oval => "Oval",
        }
    }
}

/// What a pad is made for.
#[derive(Clone, Copy, Debug, PartialEq, Eq)]
pub enum PadFabType {
    /// No particular purpose; written `None`.
    NoProperty,
    Bga,
    Fiducial,
    TestPoint,
    Heatsink,
    Castellated,
    Mechanical,
}

impl PadFabType {
    /// The variant's name, as the TOML files write it.
    pub open spec fn label_text(self) -> Seq<char> {
        match self {
            PadFabType::NoProperty => "None"@,
            PadFabType::Bga => "Bga"@,
            PadFabType::Fiducial => "Fiducial"@,
            PadFabType::TestPoint => "TestPoint"@,
            PadFabType::Heatsink => "Heatsink"@,
            PadFabType::Castellated => "Castellated"@,
            PadFabType::Mechanical => "Mechanical"@,
        }
    }

    /// The variant's name.
    pub fn label(&self) -> (s: &'static str)
        ensures
            s@ == self.label_text(),
    {
        match self {
            PadFabType::NoProperty => "None",
            PadFabType::Bga => "Bga",
            PadFabType::Fiducial => "Fiducial",
            PadFabType::TestPoint => "TestPoint",
            PadFabType::Heatsink => "Heatsink",
            PadFabType::Castellated => "Castellated",
            PadFabType::Mechanical => "Mechanical",
        }
    }
}

/// One pad of a footprint.
pub struct Pad {
    pub position: (Fixed6, Fixed6),
    pub is_flipped: bool,
    pub has_model: bool,
    pub is_tht_or_smd: bool,
    pub has_paste: bool,
    pub pad_type: PadType,
    pub shape: PadShape,
    pub size: (Fixed6, Fixed6),
    pub rotation: Fixed6,
    pub roundness: Fixed6,
    pub drill_shape: DrillShape,
    pub drill_size: (Fixed6, Fixed6),
    pub fab_type: PadFabType,
}

/// The TOML text of a [`Pad`].
pub open spec fn pad_toml(p: Pad) -> Seq<char> {
    "position = "@ + pair_text(p.position) + "\nis_flipped = "@ + bool_text(p.is_flipped)
        + "\nhas_model = "@ + bool_text(p.has_model) + "\nis_tht_or_smd = "@ + bool_text(
        p.is_tht_or_smd,
    ) + "\nhas_paste = "@ + bool_text(p.has_paste) + "\npad_type = \""@
        + p.pad_type.label_text() + "\"\nshape = \""@ + p.shape.label_text() + "\"\nsize = "@
        + pair_text(p.size) + "\nrotation = "@ + fixed6_text(p.rotation) + "\nroundness = "@
        + fixed6_text(p.roundness) + "\ndrill_shape = \""@ + p.drill_shape.label_text()
        + "\"\ndrill_size = "@ + pair_text(p.drill_size) + "\nfab_type = \""@
        + p.fab_type.label_text() + "\""@
}

impl Pad {
    /// Every number is well formed.
    pub open spec fn wf(&self) -> bool {
        &&& pair_wf(self.position)
        &&& pair_wf(self.size)
        &&& self.rotation.wf()
        &&& self.roundness.wf()
        &&& pair_wf(self.drill_size)
    }

    /// The TOML text of the pad.
    pub fn to_toml(&self) -> (s: String)
        requires
            self.wf(),
        ensures
            s@ == pad_toml(*self),
    {
        let mut s = "position = ".to_owned();
        append_pair(&mut s, &self.position);
        s.append("\nis_flipped = ");
        append_bool(&mut s, self.is_flipped);
        s.append("\nhas_model = ");
        append_bool(&mut s, self.has_model);
        s.append("\nis_tht_or_smd = ");
        append_bool(&mut s, self.is_tht_or_smd);
        s.append("\nhas_paste = ");
        append_bool(&mut s, self.has_paste);
        s.append("\npad_type = \"");
        s.append(self.pad_type.label());
        s.append("\"\nshape = \"");
        s.append(self.shape.label());
        s.append("\"\nsize = ");
        append_pair(&mut s, &self.size);
        s.append("\nrotation = ");
        append_fixed6(&mut s, &self.rotation);
        s.append("\nroundness = ");
        append_fixed6(&mut s, &self.roundness);
        s.append("\ndrill_shape = \"");
        s.append(self.drill_shape.label());
        s.append("\"\ndrill_size = ");
        append_pair(&mut s, &self.drill_size);
        s.append("\nfab_type = \"");
        s.append(self.fab_type.label());
        s.append("\"");
        assert(s@ =~= pad_toml(*self));
        s
    }
}

/// Where a board sits relative to another board in a stack.
pub struct StackedBoard {
    pub offset: (Fixed6, Fixed6, Fixed6),
}

/// The TOML text of a [`StackedBoard`].
pub open spec fn stacked_board_toml(b: StackedBoard) -> Seq<char> {
    "offset = "@ + triple_text(b.offset)
}

impl StackedBoard {
    /// Every number is well formed.
    pub open spec fn wf(&self) -> bool {
        triple_wf(self.offset)
    }

    /// The TOML text of the offset.
    pub fn to_toml(&self) -> (s: String)
        requires
            self.wf(),
        ensures
            s@ == stacked_board_toml(*self),
    {
        let mut s = "offset = ".to_owned();
        append_triple(&mut s, &self.offset);
        assert(s@ =~= stacked_board_toml(*self));
        s
    }
}

} // verus!
