//! What the TOML texts of the board records say about the records.
//!
//! Each text names every field after its key, in declaration order, with the
//! number's six-place text, the boolean's `true` or `false`, the variant's
//! name or the string as it is. And each text tells its records apart field by
//! field: two records that differ in one field only get different texts.

use vstd::prelude::*;
use crate::board::{
    Bounds, DrillShape, Pad, PadFabType, PadShape, PadType, StackedBoard, Stackup, bool_text,
    bounds_toml, pad_toml, pair_text, pair_wf, stacked_board_toml, stackup_toml, triple_text,
    triple_wf,
};
use crate::decimal::{Fixed6, fixed6_text, lemma_fixed6_text_injective};

verus! {

proof fn lemma_prefix_cancel(p: Seq<char>, a: Seq<char>, b: Seq<char>)
    requires
        p + a == p + b,
    ensures
        a == b,
{
    let x = p + a;
    let y = p + b;
    assert(x.len() == p.len() + a.len());
    assert(y.len() == p.len() + b.len());
    assert(a =~= x.subrange(p.len() as int, x.len() as int));
    assert(b =~= y.subrange(p.len() as int, y.len() as int));
}

proof fn lemma_suffix_cancel(a: Seq<char>, b: Seq<char>, q: Seq<char>)
    requires
        a + q == b + q,
    ensures
        a == b,
{
    let x = a + q;
    let y = b + q;
    assert(x.len() == a.len() + q.len());
    assert(y.len() == b.len() + q.len());
    assert(a =~= x.subrange(0, a.len() as int));
    assert(b =~= y.subrange(0, b.len() as int));
}

/// `true` and `false` are written differently.
pub proof fn lemma_bool_text_injective(x: bool, y: bool)
    requires
        bool_text(x) == bool_text(y),
    ensures
        x == y,
{
    reveal_strlit("true");
    reveal_strlit("false");
    assert(bool_text(true) =~= seq!['t', 'r', 'u', 'e']);
    assert(bool_text(false) =~= seq!['f', 'a', 'l', 's', 'e']);
    if x != y {
        assert(bool_text(x).len() != bool_text(y).len());
    }
}

proof fn lemma_padtype_label_chars(x: PadType)
    ensures
        x.label_text().len() >= 3,
{
    reveal_strlit("Unknown");
    reveal_strlit("Tht");
    reveal_strlit("Smd");
    reveal_strlit("Conn");
    reveal_strlit("Npth");
    match x {
        PadType::Unknown => assert(x.label_text() =~= seq!['U', 'n', 'k', 'n', 'o', 'w', 'n']),
        PadType::Tht => assert(x.label_text() =~= seq!['T', 'h', 't']),
        PadType::Smd => assert(x.label_text() =~= seq!['S', 'm', 'd']),
        PadType::Conn => assert(x.label_text() =~= seq!['C', 'o', 'n', 'n']),
        PadType::Npth => assert(x.label_text() =~= seq!['N', 'p', 't', 'h']),
    }
}

proof fn lemma_padshape_label_chars(x: PadShape)
    ensures
        x.label_text().len() >= 3,
{
    reveal_strlit("Unknown");
    reveal_strlit("Circle");
    reveal_strlit("Rect");
    reveal_strlit("Oval");
    reveal_strlit("Trapezoid");
    reveal_strlit("RoundRect");
    reveal_strlit("ChamferedRect");
    reveal_strlit("Custom");
    match x {
        PadShape::Unknown => assert(x.label_text() =~= seq!['U', 'n', 'k', 'n', 'o', 'w', 'n']),
        PadShape::Circle => assert(x.label_text() =~= seq!['C', 'i', 'r', 'c', 'l', 'e']),
        PadShape::Rect => assert(x.label_text() =~= seq!['R', 'e', 'c', 't']),
        PadShape::Oval => assert(x.label_text() =~= seq!['O', 'v', 'a', 'l']),
        PadShape::Trapezoid => assert(x.label_text() =~= seq!['T', 'r', 'a', 'p', 'e', 'z', 'o', 'i', 'd']),
        PadShape::RoundRect => assert(x.label_text() =~= seq!['R', 'o', 'u', 'n', 'd', 'R', 'e', 'c', 't']),
        PadShape::ChamferedRect => assert(x.label_text() =~= seq!['C', 'h', 'a', 'm', 'f', 'e', 'r', 'e', 'd', 'R', 'e', 'c', 't']),
        PadShape::Custom => assert(x.label_text() =~= seq!['C', 'u', 's', 't', 'o', 'm']),
    }
}

proof fn lemma_drillshape_label_chars(x: DrillShape)
    ensures
        x.label_text().len() >= 3,
{
    reveal_strlit("Unknown");
    reveal_strlit("Circular");
    reveal_strlit("Oval");
    match x {
        DrillShape::Unknown => assert(x.label_text() =~= seq!['U', 'n', 'k', 'n', 'o', 'w', 'n']),
        DrillShape::Circular => assert(x.label_text() =~= seq!['C', 'i', 'r', 'c', 'u', 'l', 'a', 'r']),
        DrillShape::Oval => assert(x.label_text() =~= seq!['O', 'v', 'a', 'l']),
    }
}

proof fn lemma_padfabtype_label_chars(x: PadFabType)
    ensures
        x.label_text().len() >= 3,
{
    reveal_strlit("None");
    reveal_strlit("Bga");
    reveal_strlit("Fiducial");
    reveal_strlit("TestPoint");
    reveal_strlit("Heatsink");
    reveal_strlit("Castellated");
    reveal_strlit("Mechanical");
    match x {
        PadFabType::NoProperty => assert(x.label_text() =~= seq!['N', 'o', 'n', 'e']),
        PadFabType::Bga => assert(x.label_text() =~= seq!['B', 'g', 'a']),
        PadFabType::Fiducial => assert(x.label_text() =~= seq!['F', 'i', 'd', 'u', 'c', 'i', 'a', 'l']),
        PadFabType::TestPoint => assert(x.label_text() =~= seq!['T', 'e', 's', 't', 'P', 'o', 'i', 'n', 't']),
        PadFabType::Heatsink => assert(x.label_text() =~= seq!['H', 'e', 'a', 't', 's', 'i', 'n', 'k']),
        PadFabType::Castellated => assert(x.label_text() =~= seq!['C', 'a', 's', 't', 'e', 'l', 'l', 'a', 't', 'e', 'd']),
        PadFabType::Mechanical => assert(x.label_text() =~= seq!['M', 'e', 'c', 'h', 'a', 'n', 'i', 'c', 'a', 'l']),
    }
}

/// Distinct pad types have distinct names.
pub proof fn lemma_pad_type_label_injective(x: PadType, y: PadType)
    requires
        x.label_text() == y.label_text(),
    ensures
        x == y,
{
    reveal_strlit("Unknown");
    reveal_strlit("Tht");
    reveal_strlit("Smd");
    reveal_strlit("Conn");
    reveal_strlit("Npth");
    lemma_padtype_label_chars(x);
    lemma_padtype_label_chars(y);
    if x != y {
        let (s, t) = (x.label_text(), y.label_text());
        assert(s.len() != t.len() || s[0] != t[0] || s[1] != t[1] || s[2] != t[2]);
    }
}

/// Distinct pad shapes have distinct names.
pub proof fn lemma_pad_shape_label_injective(x: PadShape, y: PadShape)
    requires
        x.label_text() == y.label_text(),
    ensures
        x == y,
{
    reveal_strlit("Unknown");
    reveal_strlit("Circle");
    reveal_strlit("Rect");
    reveal_strlit("Oval");
    reveal_strlit("Trapezoid");
    reveal_strlit("RoundRect");
    reveal_strlit("ChamferedRect");
    reveal_strlit("Custom");
    lemma_padshape_label_chars(x);
    lemma_padshape_label_chars(y);
    if x != y {
        let (s, t) = (x.label_text(), y.label_text());
        assert(s.len() != t.len() || s[0] != t[0] || s[1] != t[1] || s[2] != t[2]);
    }
}

/// Distinct drill shapes have distinct names.
pub proof fn lemma_drill_shape_label_injective(x: DrillShape, y: DrillShape)
    requires
        x.label_text() == y.label_text(),
    ensures
        x == y,
{
    reveal_strlit("Unknown");
    reveal_strlit("Circular");
    reveal_strlit("Oval");
    lemma_drillshape_label_chars(x);
    lemma_drillshape_label_chars(y);
    if x != y {
        let (s, t) = (x.label_text(), y.label_text());
        assert(s.len() != t.len() || s[0] != t[0] || s[1] != t[1] || s[2] != t[2]);
    }
}

/// Distinct pad purposes have distinct names.
pub proof fn lemma_pad_fab_type_label_injective(x: PadFabType, y: PadFabType)
    requires
        x.label_text() == y.label_text(),
    ensures
        x == y,
{
    reveal_strlit("None");
    reveal_strlit("Bga");
    reveal_strlit("Fiducial");
    reveal_strlit("TestPoint");
    reveal_strlit("Heatsink");
    reveal_strlit("Castellated");
    reveal_strlit("Mechanical");
    lemma_padfabtype_label_chars(x);
    lemma_padfabtype_label_chars(y);
    if x != y {
        let (s, t) = (x.label_text(), y.label_text());
        assert(s.len() != t.len() || s[0] != t[0] || s[1] != t[1] || s[2] != t[2]);
    }
}

/// Appending a pair's array text appends its pieces one after the other.
proof fn lemma_append_pair(f: Seq<char>, x: (Fixed6, Fixed6))
    ensures
        f + pair_text(x) == f + "[ "@ + fixed6_text(x.0) + ", "@ + fixed6_text(x.1) + " ]"@,
{
    assert(f + pair_text(x) =~= f + "[ "@ + fixed6_text(x.0) + ", "@ + fixed6_text(x.1) + " ]"@);
}

/// Appending a triple's array text appends its pieces one after the other.
proof fn lemma_append_triple(f: Seq<char>, x: (Fixed6, Fixed6, Fixed6))
    ensures
        f + triple_text(x) == f + "[ "@ + fixed6_text(x.0) + ", "@ + fixed6_text(x.1) + ", "@
            + fixed6_text(x.2) + " ]"@,
{
    assert(f + triple_text(x) =~= f + "[ "@ + fixed6_text(x.0) + ", "@ + fixed6_text(x.1) + ", "@
        + fixed6_text(x.2) + " ]"@);
}

/// The array text of a pair, with one number known to agree, gives the other.
proof fn lemma_pair_text_component(x: (Fixed6, Fixed6), y: (Fixed6, Fixed6))
    requires
        pair_wf(x),
        pair_wf(y),
        pair_text(x) == pair_text(y),
        x.0 == y.0 || x.1 == y.1,
    ensures
        x == y,
{
    let a0 = "[ "@;
    let a1 = a0 + fixed6_text(x.0);
    let a2 = a1 + ", "@;
    let a3 = a2 + fixed6_text(x.1);
    let b1 = a0 + fixed6_text(y.0);
    let b2 = b1 + ", "@;
    let b3 = b2 + fixed6_text(y.1);
    assert(pair_text(x) == a3 + " ]"@);
    assert(pair_text(y) == b3 + " ]"@);
    lemma_suffix_cancel(a3, b3, " ]"@);
    if x.0 == y.0 {
        assert(a2 == b2);
        lemma_prefix_cancel(a2, fixed6_text(x.1), fixed6_text(y.1));
        lemma_fixed6_text_injective(x.1, y.1);
    } else {
        lemma_suffix_cancel(a2, b2, fixed6_text(x.1));
        lemma_suffix_cancel(a1, b1, ", "@);
        lemma_prefix_cancel(a0, fixed6_text(x.0), fixed6_text(y.0));
        lemma_fixed6_text_injective(x.0, y.0);
    }
}

/// The array text of a triple, with two numbers known to agree, gives the third.
proof fn lemma_triple_text_component(x: (Fixed6, Fixed6, Fixed6), y: (Fixed6, Fixed6, Fixed6))
    requires
        triple_wf(x),
        triple_wf(y),
        triple_text(x) == triple_text(y),
        (x.0 == y.0 && x.1 == y.1) || (x.0 == y.0 && x.2 == y.2) || (x.1 == y.1 && x.2 == y.2),
    ensures
        x == y,
{
    let a0 = "[ "@;
    let a1 = a0 + fixed6_text(x.0);
    let a2 = a1 + ", "@;
    let a3 = a2 + fixed6_text(x.1);
    let a4 = a3 + ", "@;
    let a5 = a4 + fixed6_text(x.2);
    let b1 = a0 + fixed6_text(y.0);
    let b2 = b1 + ", "@;
    let b3 = b2 + fixed6_text(y.1);
    let b4 = b3 + ", "@;
    let b5 = b4 + fixed6_text(y.2);
    assert(triple_text(x) == a5 + " ]"@);
    assert(triple_text(y) == b5 + " ]"@);
    lemma_suffix_cancel(a5, b5, " ]"@);
    if x.0 == y.0 && x.1 == y.1 {
        assert(a4 == b4);
        lemma_prefix_cancel(a4, fixed6_text(x.2), fixed6_text(y.2));
        lemma_fixed6_text_injective(x.2, y.2);
    } else if x.0 == y.0 && x.2 == y.2 {
        lemma_suffix_cancel(a4, b4, fixed6_text(x.2));
        lemma_suffix_cancel(a3, b3, ", "@);
        assert(a2 == b2);
        lemma_prefix_cancel(a2, fixed6_text(x.1), fixed6_text(y.1));
        lemma_fixed6_text_injective(x.1, y.1);
    } else {
        lemma_suffix_cancel(a4, b4, fixed6_text(x.2));
        lemma_suffix_cancel(a3, b3, ", "@);
        lemma_suffix_cancel(a2, b2, fixed6_text(x.1));
        lemma_suffix_cancel(a1, b1, ", "@);
        lemma_prefix_cancel(a0, fixed6_text(x.0), fixed6_text(y.0));
        lemma_fixed6_text_injective(x.0, y.0);
    }
}

/// The outline's text: the corner's two coordinates, then the size's width and
/// height, each the six-place text of its own number and with its own sign.
pub proof fn lemma_bounds_text_fields(b: Bounds)
    ensures
        bounds_toml(b) == "top_left = "@
            + "[ "@
            + fixed6_text(b.top_left.0)
            + ", "@
            + fixed6_text(b.top_left.1)
            + " ]"@
            + "\nsize = "@
            + "[ "@
            + fixed6_text(b.size.0)
            + ", "@
            + fixed6_text(b.size.1)
            + " ]"@,
{
    let spec_part0 = "top_left = "@;
    let flat_part0 = spec_part0;
    let spec_part1 = spec_part0 + pair_text(b.top_left);
    let flat_part1 = flat_part0 + "[ "@ + fixed6_text(b.top_left.0) + ", "@ + fixed6_text(b.top_left.1) + " ]"@;
    lemma_append_pair(flat_part0, b.top_left);
    assert(spec_part1 == flat_part1);
    let spec_part2 = spec_part1 + "\nsize = "@;
    let flat_part2 = flat_part1 + "\nsize = "@;
    assert(spec_part2 == flat_part2);
    let spec_part3 = spec_part2 + pair_text(b.size);
    let flat_part3 = flat_part2 + "[ "@ + fixed6_text(b.size.0) + ", "@ + fixed6_text(b.size.1) + " ]"@;
    lemma_append_pair(flat_part2, b.size);
    assert(spec_part3 == flat_part3);
    assert(bounds_toml(b) == spec_part3);
}

/// The offset's text: its three components in order, each the six-place text of
/// its own number and with its own sign.
pub proof fn lemma_stacked_board_text_fields(s: StackedBoard)
    ensures
        stacked_board_toml(s) == "offset = "@
            + "[ "@
            + fixed6_text(s.offset.0)
            + ", "@
            + fixed6_text(s.offset.1)
            + ", "@
            + fixed6_text(s.offset.2)
            + " ]"@,
{
    let spec_part0 = "offset = "@;
    let flat_part0 = spec_part0;
    let spec_part1 = spec_part0 + triple_text(s.offset);
    let flat_part1 = flat_part0 + "[ "@ + fixed6_text(s.offset.0) + ", "@ + fixed6_text(s.offset.1) + ", "@ + fixed6_text(s.offset.2) + " ]"@;
    lemma_append_triple(flat_part0, s.offset);
    assert(spec_part1 == flat_part1);
    assert(stacked_board_toml(s) == spec_part1);
}

/// The stackup's text: the thickness, then the mask colour as given, its custom
/// colour, the silkscreen colour as given, its custom colour and the finish as
/// given, one key per line.
pub proof fn lemma_stackup_text_fields(st: Stackup)
    ensures
        stackup_toml(st) == "thickness_mm = "@
            + fixed6_text(st.thickness_mm)
            + "\nmask_color = \""@
            + st.mask_color@
            + "\"\nmask_color_custom = "@
            + "[ "@
            + fixed6_text(st.mask_color_custom.0)
            + ", "@
            + fixed6_text(st.mask_color_custom.1)
            + ", "@
            + fixed6_text(st.mask_color_custom.2)
            + " ]"@
            + "\nsilks_color = \""@
            + st.silks_color@
            + "\"\nsilks_color_custom = "@
            + "[ "@
            + fixed6_text(st.silks_color_custom.0)
            + ", "@
            + fixed6_text(st.silks_color_custom.1)
            + ", "@
            + fixed6_text(st.silks_color_custom.2)
            + " ]"@
            + "\nsurface_finish = \""@
            + st.surface_finish@
            + "\""@,
{
    let spec_part0 = "thickness_mm = "@;
    let flat_part0 = spec_part0;
    let spec_part1 = spec_part0 + fixed6_text(st.thickness_mm);
    let flat_part1 = flat_part0 + fixed6_text(st.thickness_mm);
    assert(spec_part1 == flat_part1);
    let spec_part2 = spec_part1 + "\nmask_color = \""@;
    let flat_part2 = flat_part1 + "\nmask_color = \""@;
    assert(spec_part2 == flat_part2);
    let spec_part3 = spec_part2 + st.mask_color@;
    let flat_part3 = flat_part2 + st.mask_color@;
    assert(spec_part3 == flat_part3);
    let spec_part4 = spec_part3 + "\"\nmask_color_custom = "@;
    let flat_part4 = flat_part3 + "\"\nmask_color_custom = "@;
    assert(spec_part4 == flat_part4);
    let spec_part5 = spec_part4 + triple_text(st.mask_color_custom);
    let flat_part5 = flat_part4 + "[ "@ + fixed6_text(st.mask_color_custom.0) + ", "@ + fixed6_text(st.mask_color_custom.1) + ", "@ + fixed6_text(st.mask_color_custom.2) + " ]"@;
    lemma_append_triple(flat_part4, st.mask_color_custom);
    assert(spec_part5 == flat_part5);
    let spec_part6 = spec_part5 + "\nsilks_color = \""@;
    let flat_part6 = flat_part5 + "\nsilks_color = \""@;
    assert(spec_part6 == flat_part6);
    let spec_part7 = spec_part6 + st.silks_color@;
    let flat_part7 = flat_part6 + st.silks_color@;
    assert(spec_part7 == flat_part7);
    let spec_part8 = spec_part7 + "\"\nsilks_color_custom = "@;
    let flat_part8 = flat_part7 + "\"\nsilks_color_custom = "@;
    assert(spec_part8 == flat_part8);
    let spec_part9 = spec_part8 + triple_text(st.silks_color_custom);
    let flat_part9 = flat_part8 + "[ "@ + fixed6_text(st.silks_color_custom.0) + ", "@ + fixed6_text(st.silks_color_custom.1) + ", "@ + fixed6_text(st.silks_color_custom.2) + " ]"@;
    lemma_append_triple(flat_part8, st.silks_color_custom);
    assert(spec_part9 == flat_part9);
    let spec_part10 = spec_part9 + "\nsurface_finish = \""@;
    let flat_part10 = flat_part9 + "\nsurface_finish = \""@;
    assert(spec_part10 == flat_part10);
    let spec_part11 = spec_part10 + st.surface_finish@;
    let flat_part11 = flat_part10 + st.surface_finish@;
    assert(spec_part11 == flat_part11);
    let spec_part12 = spec_part11 + "\""@;
    let flat_part12 = flat_part11 + "\""@;
    assert(spec_part12 == flat_part12);
    assert(stackup_toml(st) == spec_part12);
}

/// A pad's text: one key per line in field order, each number the six-place text
/// of its own field, each flag `true` exactly when that field is set, each kind
/// the name of its variant.
pub proof fn lemma_pad_text_fields(p: Pad)
    ensures
        pad_toml(p) == "position = "@
            + "[ "@
            + fixed6_text(p.position.0)
            + ", "@
            + fixed6_text(p.position.1)
            + " ]"@
            + "\nis_flipped = "@
            + (if p.is_flipped { "true"@ } else { "false"@ })
            + "\nhas_model = "@
            + (if p.has_model { "true"@ } else { "false"@ })
            + "\nis_tht_or_smd = "@
            + (if p.is_tht_or_smd { "true"@ } else { "false"@ })
            + "\nhas_paste = "@
            + (if p.has_paste { "true"@ } else { "false"@ })
            + "\npad_type = \""@
            + p.pad_type.label_text()
            + "\"\nshape = \""@
            + p.shape.label_text()
            + "\"\nsize = "@
            + "[ "@
            + fixed6_text(p.size.0)
            + ", "@
            + fixed6_text(p.size.1)
            + " ]"@
            + "\nrotation = "@
            + fixed6_text(p.rotation)
            + "\nroundness = "@
            + fixed6_text(p.roundness)
            + "\ndrill_shape = \""@
            + p.drill_shape.label_text()
            + "\"\ndrill_size = "@
            + "[ "@
            + fixed6_text(p.drill_size.0)
            + ", "@
            + fixed6_text(p.drill_size.1)
            + " ]"@
            + "\nfab_type = \""@
            + p.fab_type.label_text()
            + "\""@,
{
    let spec_part0 = "position = "@;
    let flat_part0 = spec_part0;
    let spec_part1 = spec_part0 + pair_text(p.position);
    let flat_part1 = flat_part0 + "[ "@ + fixed6_text(p.position.0) + ", "@ + fixed6_text(p.position.1) + " ]"@;
    lemma_append_pair(flat_part0, p.position);
    assert(spec_part1 == flat_part1);
    let spec_part2 = spec_part1 + "\nis_flipped = "@;
    let flat_part2 = flat_part1 + "\nis_flipped = "@;
    assert(spec_part2 == flat_part2);
    let spec_part3 = spec_part2 + bool_text(p.is_flipped);
    let flat_part3 = flat_part2 + (if p.is_flipped { "true"@ } else { "false"@ });
    assert(spec_part3 == flat_part3);
    let spec_part4 = spec_part3 + "\nhas_model = "@;
    let flat_part4 = flat_part3 + "\nhas_model = "@;
    assert(spec_part4 == flat_part4);
    let spec_part5 = spec_part4 + bool_text(p.has_model);
    let flat_part5 = flat_part4 + (if p.has_model { "true"@ } else { "false"@ });
    assert(spec_part5 == flat_part5);
    let spec_part6 = spec_part5 + "\nis_tht_or_smd = "@;
    let flat_part6 = flat_part5 + "\nis_tht_or_smd = "@;
    assert(spec_part6 == flat_part6);
    let spec_part7 = spec_part6 + bool_text(p.is_tht_or_smd);
    let flat_part7 = flat_part6 + (if p.is_tht_or_smd { "true"@ } else { "false"@ });
    assert(spec_part7 == flat_part7);
    let spec_part8 = spec_part7 + "\nhas_paste = "@;
    let flat_part8 = flat_part7 + "\nhas_paste = "@;
    assert(spec_part8 == flat_part8);
    let spec_part9 = spec_part8 + bool_text(p.has_paste);
    let flat_part9 = flat_part8 + (if p.has_paste { "true"@ } else { "false"@ });
    assert(spec_part9 == flat_part9);
    let spec_part10 = spec_part9 + "\npad_type = \""@;
    let flat_part10 = flat_part9 + "\npad_type = \""@;
    assert(spec_part10 == flat_part10);
    let spec_part11 = spec_part10 + p.pad_type.label_text();
    let flat_part11 = flat_part10 + p.pad_type.label_text();
    assert(spec_part11 == flat_part11);
    let spec_part12 = spec_part11 + "\"\nshape = \""@;
    let flat_part12 = flat_part11 + "\"\nshape = \""@;
    assert(spec_part12 == flat_part12);
    let spec_part13 = spec_part12 + p.shape.label_text();
    let flat_part13 = flat_part12 + p.shape.label_text();
    assert(spec_part13 == flat_part13);
    let spec_part14 = spec_part13 + "\"\nsize = "@;
    let flat_part14 = flat_part13 + "\"\nsize = "@;
    assert(spec_part14 == flat_part14);
    let spec_part15 = spec_part14 + pair_text(p.size);
    let flat_part15 = flat_part14 + "[ "@ + fixed6_text(p.size.0) + ", "@ + fixed6_text(p.size.1) + " ]"@;
    lemma_append_pair(flat_part14, p.size);
    assert(spec_part15 == flat_part15);
    let spec_part16 = spec_part15 + "\nrotation = "@;
    let flat_part16 = flat_part15 + "\nrotation = "@;
    assert(spec_part16 == flat_part16);
    let spec_part17 = spec_part16 + fixed6_text(p.rotation);
    let flat_part17 = flat_part16 + fixed6_text(p.rotation);
    assert(spec_part17 == flat_part17);
    let spec_part18 = spec_part17 + "\nroundness = "@;
    let flat_part18 = flat_part17 + "\nroundness = "@;
    assert(spec_part18 == flat_part18);
    let spec_part19 = spec_part18 + fixed6_text(p.roundness);
    let flat_part19 = flat_part18 + fixed6_text(p.roundness);
    assert(spec_part19 == flat_part19);
    let spec_part20 = spec_part19 + "\ndrill_shape = \""@;
    let flat_part20 = flat_part19 + "\ndrill_shape = \""@;
    assert(spec_part20 == flat_part20);
    let spec_part21 = spec_part20 + p.drill_shape.label_text();
    let flat_part21 = flat_part20 + p.drill_shape.label_text();
    assert(spec_part21 == flat_part21);
    let spec_part22 = spec_part21 + "\"\ndrill_size = "@;
    let flat_part22 = flat_part21 + "\"\ndrill_size = "@;
    assert(spec_part22 == flat_part22);
    let spec_part23 = spec_part22 + pair_text(p.drill_size);
    let flat_part23 = flat_part22 + "[ "@ + fixed6_text(p.drill_size.0) + ", "@ + fixed6_text(p.drill_size.1) + " ]"@;
    lemma_append_pair(flat_part22, p.drill_size);
    assert(spec_part23 == flat_part23);
    let spec_part24 = spec_part23 + "\nfab_type = \""@;
    let flat_part24 = flat_part23 + "\nfab_type = \""@;
    assert(spec_part24 == flat_part24);
    let spec_part25 = spec_part24 + p.fab_type.label_text();
    let flat_part25 = flat_part24 + p.fab_type.label_text();
    assert(spec_part25 == flat_part25);
    let spec_part26 = spec_part25 + "\""@;
    let flat_part26 = flat_part25 + "\""@;
    assert(spec_part26 == flat_part26);
    assert(pad_toml(p) == spec_part26);
}

/// The bounds TOML tells apart two Bounds values that differ only in `top_left.0`: their
/// texts are equal exactly when those values are.
pub proof fn lemma_bounds_text_tracks_top_left_0(a: Bounds, b: Bounds)
    requires
        a.wf(),
        b.wf(),
        a.top_left.1 == b.top_left.1,
        a.size.0 == b.size.0,
        a.size.1 == b.size.1,
    ensures
        (bounds_toml(a) == bounds_toml(b)) <==> (a.top_left.0 == b.top_left.0),
{
    if bounds_toml(a) == bounds_toml(b) {
        let pa0 = "top_left = "@;
        let pa1 = pa0 + pair_text(a.top_left);
        let pa2 = pa1 + "\nsize = "@;
        let pa3 = pa2 + pair_text(a.size);
        let pb0 = "top_left = "@;
        let pb1 = pb0 + pair_text(b.top_left);
        let pb2 = pb1 + "\nsize = "@;
        let pb3 = pb2 + pair_text(b.size);
        assert(bounds_toml(a) == pa3);
        assert(bounds_toml(b) == pb3);
        lemma_suffix_cancel(pa2, pb2, pair_text(a.size));
        lemma_suffix_cancel(pa1, pb1, "\nsize = "@);
        assert(pa0 == pb0);
        lemma_prefix_cancel(pa0, pair_text(a.top_left), pair_text(b.top_left));
        lemma_pair_text_component(a.top_left, b.top_left);
    }
}

/// The bounds TOML tells apart two Bounds values that differ only in `top_left.1`: their
/// texts are equal exactly when those values are.
pub proof fn lemma_bounds_text_tracks_top_left_1(a: Bounds, b: Bounds)
    requires
        a.wf(),
        b.wf(),
        a.top_left.0 == b.top_left.0,
        a.size.0 == b.size.0,
        a.size.1 == b.size.1,
    ensures
        (bounds_toml(a) == bounds_toml(b)) <==> (a.top_left.1 == b.top_left.1),
{
    if bounds_toml(a) == bounds_toml(b) {
        let pa0 = "top_left = "@;
        let pa1 = pa0 + pair_text(a.top_left);
        let pa2 = pa1 + "\nsize = "@;
        let pa3 = pa2 + pair_text(a.size);
        let pb0 = "top_left = "@;
        let pb1 = pb0 + pair_text(b.top_left);
        let pb2 = pb1 + "\nsize = "@;
        let pb3 = pb2 + pair_text(b.size);
        assert(bounds_toml(a) == pa3);
        assert(bounds_toml(b) == pb3);
        lemma_suffix_cancel(pa2, pb2, pair_text(a.size));
        lemma_suffix_cancel(pa1, pb1, "\nsize = "@);
        assert(pa0 == pb0);
        lemma_prefix_cancel(pa0, pair_text(a.top_left), pair_text(b.top_left));
        lemma_pair_text_component(a.top_left, b.top_left);
    }
}

/// The bounds TOML tells apart two Bounds values that differ only in `size.0`: their
/// texts are equal exactly when those values are.
pub proof fn lemma_bounds_text_tracks_size_0(a: Bounds, b: Bounds)
    requires
        a.wf(),
        b.wf(),
        a.top_left.0 == b.top_left.0,
        a.top_left.1 == b.top_left.1,
        a.size.1 == b.size.1,
    ensures
        (bounds_toml(a) == bounds_toml(b)) <==> (a.size.0 == b.size.0),
{
    if bounds_toml(a) == bounds_toml(b) {
        let pa0 = "top_left = "@;
        let pa1 = pa0 + pair_text(a.top_left);
        let pa2 = pa1 + "\nsize = "@;
        let pa3 = pa2 + pair_text(a.size);
        let pb0 = "top_left = "@;
        let pb1 = pb0 + pair_text(b.top_left);
        let pb2 = pb1 + "\nsize = "@;
        let pb3 = pb2 + pair_text(b.size);
        assert(bounds_toml(a) == pa3);
        assert(bounds_toml(b) == pb3);
        assert(pa2 == pb2);
        lemma_prefix_cancel(pa2, pair_text(a.size), pair_text(b.size));
        lemma_pair_text_component(a.size, b.size);
    }
}

/// The bounds TOML tells apart two Bounds values that differ only in `size.1`: their
/// texts are equal exactly when those values are.
pub proof fn lemma_bounds_text_tracks_size_1(a: Bounds, b: Bounds)
    requires
        a.wf(),
        b.wf(),
        a.top_left.0 == b.top_left.0,
        a.top_left.1 == b.top_left.1,
        a.size.0 == b.size.0,
    ensures
        (bounds_toml(a) == bounds_toml(b)) <==> (a.size.1 == b.size.1),
{
    if bounds_toml(a) == bounds_toml(b) {
        let pa0 = "top_left = "@;
        let pa1 = pa0 + pair_text(a.top_left);
        let pa2 = pa1 + "\nsize = "@;
        let pa3 = pa2 + pair_text(a.size);
        let pb0 = "top_left = "@;
        let pb1 = pb0 + pair_text(b.top_left);
        let pb2 = pb1 + "\nsize = "@;
        let pb3 = pb2 + pair_text(b.size);
        assert(bounds_toml(a) == pa3);
        assert(bounds_toml(b) == pb3);
        assert(pa2 == pb2);
        lemma_prefix_cancel(pa2, pair_text(a.size), pair_text(b.size));
        lemma_pair_text_component(a.size, b.size);
    }
}

/// The stacked board TOML tells apart two StackedBoard values that differ only in `offset.0`: their
/// texts are equal exactly when those values are.
pub proof fn lemma_stacked_board_text_tracks_offset_0(a: StackedBoard, b: StackedBoard)
    requires
        a.wf(),
        b.wf(),
        a.offset.1 == b.offset.1,
        a.offset.2 == b.offset.2,
    ensures
        (stacked_board_toml(a) == stacked_board_toml(b)) <==> (a.offset.0 == b.offset.0),
{
    if stacked_board_toml(a) == stacked_board_toml(b) {
        let pa0 = "offset = "@;
        let pa1 = pa0 + triple_text(a.offset);
        let pb0 = "offset = "@;
        let pb1 = pb0 + triple_text(b.offset);
        assert(stacked_board_toml(a) == pa1);
        assert(stacked_board_toml(b) == pb1);
        assert(pa0 == pb0);
        lemma_prefix_cancel(pa0, triple_text(a.offset), triple_text(b.offset));
        lemma_triple_text_component(a.offset, b.offset);
    }
}

/// The stacked board TOML tells apart two StackedBoard values that differ only in `offset.1`: their
/// texts are equal exactly when those values are.
pub proof fn lemma_stacked_board_text_tracks_offset_1(a: StackedBoard, b: StackedBoard)
    requires
        a.wf(),
        b.wf(),
        a.offset.0 == b.offset.0,
        a.offset.2 == b.offset.2,
    ensures
        (stacked_board_toml(a) == stacked_board_toml(b)) <==> (a.offset.1 == b.offset.1),
{
    if stacked_board_toml(a) == stacked_board_toml(b) {
        let pa0 = "offset = "@;
        let pa1 = pa0 + triple_text(a.offset);
        let pb0 = "offset = "@;
        let pb1 = pb0 + triple_text(b.offset);
        assert(stacked_board_toml(a) == pa1);
        assert(stacked_board_toml(b) == pb1);
        assert(pa0 == pb0);
        lemma_prefix_cancel(pa0, triple_text(a.offset), triple_text(b.offset));
        lemma_triple_text_component(a.offset, b.offset);
    }
}

/// The stacked board TOML tells apart two StackedBoard values that differ only in `offset.2`: their
/// texts are equal exactly when those values are.
pub proof fn lemma_stacked_board_text_tracks_offset_2(a: StackedBoard, b: StackedBoard)
    requires
        a.wf(),
        b.wf(),
        a.offset.0 == b.offset.0,
        a.offset.1 == b.offset.1,
    ensures
        (stacked_board_toml(a) == stacked_board_toml(b)) <==> (a.offset.2 == b.offset.2),
{
    if stacked_board_toml(a) == stacked_board_toml(b) {
        let pa0 = "offset = "@;
        let pa1 = pa0 + triple_text(a.offset);
        let pb0 = "offset = "@;
        let pb1 = pb0 + triple_text(b.offset);
        assert(stacked_board_toml(a) == pa1);
        assert(stacked_board_toml(b) == pb1);
        assert(pa0 == pb0);
        lemma_prefix_cancel(pa0, triple_text(a.offset), triple_text(b.offset));
        lemma_triple_text_component(a.offset, b.offset);
    }
}

/// The stackup TOML tells apart two Stackup values that differ only in `thickness_mm`: their
/// texts are equal exactly when those values are.
pub proof fn lemma_stackup_text_tracks_thickness_mm(a: Stackup, b: Stackup)
    requires
        a.wf(),
        b.wf(),
        a.mask_color == b.mask_color,
        a.mask_color_custom.0 == b.mask_color_custom.0,
        a.mask_color_custom.1 == b.mask_color_custom.1,
        a.mask_color_custom.2 == b.mask_color_custom.2,
        a.silks_color == b.silks_color,
        a.silks_color_custom.0 == b.silks_color_custom.0,
        a.silks_color_custom.1 == b.silks_color_custom.1,
        a.silks_color_custom.2 == b.silks_color_custom.2,
        a.surface_finish == b.surface_finish,
    ensures
        (stackup_toml(a) == stackup_toml(b)) <==> (a.thickness_mm == b.thickness_mm),
{
    if stackup_toml(a) == stackup_toml(b) {
        let pa0 = "thickness_mm = "@;
        let pa1 = pa0 + fixed6_text(a.thickness_mm);
        let pa2 = pa1 + "\nmask_color = \""@;
        let pa3 = pa2 + a.mask_color@;
        let pa4 = pa3 + "\"\nmask_color_custom = "@;
        let pa5 = pa4 + triple_text(a.mask_color_custom);
        let pa6 = pa5 + "\nsilks_color = \""@;
        let pa7 = pa6 + a.silks_color@;
        let pa8 = pa7 + "\"\nsilks_color_custom = "@;
        let pa9 = pa8 + triple_text(a.silks_color_custom);
        let pa10 = pa9 + "\nsurface_finish = \""@;
        let pa11 = pa10 + a.surface_finish@;
        let pa12 = pa11 + "\""@;
        let pb0 = "thickness_mm = "@;
        let pb1 = pb0 + fixed6_text(b.thickness_mm);
        let pb2 = pb1 + "\nmask_color = \""@;
        let pb3 = pb2 + b.mask_color@;
        let pb4 = pb3 + "\"\nmask_color_custom = "@;
        let pb5 = pb4 + triple_text(b.mask_color_custom);
        let pb6 = pb5 + "\nsilks_color = \""@;
        let pb7 = pb6 + b.silks_color@;
        let pb8 = pb7 + "\"\nsilks_color_custom = "@;
        let pb9 = pb8 + triple_text(b.silks_color_custom);
        let pb10 = pb9 + "\nsurface_finish = \""@;
        let pb11 = pb10 + b.surface_finish@;
        let pb12 = pb11 + "\""@;
        assert(stackup_toml(a) == pa12);
        assert(stackup_toml(b) == pb12);
        lemma_suffix_cancel(pa11, pb11, "\""@);
        lemma_suffix_cancel(pa10, pb10, a.surface_finish@);
        lemma_suffix_cancel(pa9, pb9, "\nsurface_finish = \""@);
        lemma_suffix_cancel(pa8, pb8, triple_text(a.silks_color_custom));
        lemma_suffix_cancel(pa7, pb7, "\"\nsilks_color_custom = "@);
        lemma_suffix_cancel(pa6, pb6, a.silks_color@);
        lemma_suffix_cancel(pa5, pb5, "\nsilks_color = \""@);
        lemma_suffix_cancel(pa4, pb4, triple_text(a.mask_color_custom));
        lemma_suffix_cancel(pa3, pb3, "\"\nmask_color_custom = "@);
        lemma_suffix_cancel(pa2, pb2, a.mask_color@);
        lemma_suffix_cancel(pa1, pb1, "\nmask_color = \""@);
        assert(pa0 == pb0);
        lemma_prefix_cancel(pa0, fixed6_text(a.thickness_mm), fixed6_text(b.thickness_mm));
        lemma_fixed6_text_injective(a.thickness_mm, b.thickness_mm);
    }
}

/// The stackup TOML tells apart two Stackup values that differ only in `mask_color`: their
/// texts are equal exactly when those values are.
pub proof fn lemma_stackup_text_tracks_mask_color(a: Stackup, b: Stackup)
    requires
        a.wf(),
        b.wf(),
        a.thickness_mm == b.thickness_mm,
        a.mask_color_custom.0 == b.mask_color_custom.0,
        a.mask_color_custom.1 == b.mask_color_custom.1,
        a.mask_color_custom.2 == b.mask_color_custom.2,
        a.silks_color == b.silks_color,
        a.silks_color_custom.0 == b.silks_color_custom.0,
        a.silks_color_custom.1 == b.silks_color_custom.1,
        a.silks_color_custom.2 == b.silks_color_custom.2,
        a.surface_finish == b.surface_finish,
    ensures
        (stackup_toml(a) == stackup_toml(b)) <==> (a.mask_color@ == b.mask_color@),
{
    if stackup_toml(a) == stackup_toml(b) {
        let pa0 = "thickness_mm = "@;
        let pa1 = pa0 + fixed6_text(a.thickness_mm);
        let pa2 = pa1 + "\nmask_color = \""@;
        let pa3 = pa2 + a.mask_color@;
        let pa4 = pa3 + "\"\nmask_color_custom = "@;
        let pa5 = pa4 + triple_text(a.mask_color_custom);
        let pa6 = pa5 + "\nsilks_color = \""@;
        let pa7 = pa6 + a.silks_color@;
        let pa8 = pa7 + "\"\nsilks_color_custom = "@;
        let pa9 = pa8 + triple_text(a.silks_color_custom);
        let pa10 = pa9 + "\nsurface_finish = \""@;
        let pa11 = pa10 + a.surface_finish@;
        let pa12 = pa11 + "\""@;
        let pb0 = "thickness_mm = "@;
        let pb1 = pb0 + fixed6_text(b.thickness_mm);
        let pb2 = pb1 + "\nmask_color = \""@;
        let pb3 = pb2 + b.mask_color@;
        let pb4 = pb3 + "\"\nmask_color_custom = "@;
        let pb5 = pb4 + triple_text(b.mask_color_custom);
        let pb6 = pb5 + "\nsilks_color = \""@;
        let pb7 = pb6 + b.silks_color@;
        let pb8 = pb7 + "\"\nsilks_color_custom = "@;
        let pb9 = pb8 + triple_text(b.silks_color_custom);
        let pb10 = pb9 + "\nsurface_finish = \""@;
        let pb11 = pb10 + b.surface_finish@;
        let pb12 = pb11 + "\""@;
        assert(stackup_toml(a) == pa12);
        assert(stackup_toml(b) == pb12);
        lemma_suffix_cancel(pa11, pb11, "\""@);
        lemma_suffix_cancel(pa10, pb10, a.surface_finish@);
        lemma_suffix_cancel(pa9, pb9, "\nsurface_finish = \""@);
        lemma_suffix_cancel(pa8, pb8, triple_text(a.silks_color_custom));
        lemma_suffix_cancel(pa7, pb7, "\"\nsilks_color_custom = "@);
        lemma_suffix_cancel(pa6, pb6, a.silks_color@);
        lemma_suffix_cancel(pa5, pb5, "\nsilks_color = \""@);
        lemma_suffix_cancel(pa4, pb4, triple_text(a.mask_color_custom));
        lemma_suffix_cancel(pa3, pb3, "\"\nmask_color_custom = "@);
        assert(pa2 == pb2);
        lemma_prefix_cancel(pa2, a.mask_color@, b.mask_color@);
    }
}

/// The stackup TOML tells apart two Stackup values that differ only in `mask_color_custom.0`: their
/// texts are equal exactly when those values are.
pub proof fn lemma_stackup_text_tracks_mask_color_custom_0(a: Stackup, b: Stackup)
    requires
        a.wf(),
        b.wf(),
        a.thickness_mm == b.thickness_mm,
        a.mask_color == b.mask_color,
        a.mask_color_custom.1 == b.mask_color_custom.1,
        a.mask_color_custom.2 == b.mask_color_custom.2,
        a.silks_color == b.silks_color,
        a.silks_color_custom.0 == b.silks_color_custom.0,
        a.silks_color_custom.1 == b.silks_color_custom.1,
        a.silks_color_custom.2 == b.silks_color_custom.2,
        a.surface_finish == b.surface_finish,
    ensures
        (stackup_toml(a) == stackup_toml(b)) <==> (a.mask_color_custom.0 == b.mask_color_custom.0),
{
    if stackup_toml(a) == stackup_toml(b) {
        let pa0 = "thickness_mm = "@;
        let pa1 = pa0 + fixed6_text(a.thickness_mm);
        let pa2 = pa1 + "\nmask_color = \""@;
        let pa3 = pa2 + a.mask_color@;
        let pa4 = pa3 + "\"\nmask_color_custom = "@;
        let pa5 = pa4 + triple_text(a.mask_color_custom);
        let pa6 = pa5 + "\nsilks_color = \""@;
        let pa7 = pa6 + a.silks_color@;
        let pa8 = pa7 + "\"\nsilks_color_custom = "@;
        let pa9 = pa8 + triple_text(a.silks_color_custom);
        let pa10 = pa9 + "\nsurface_finish = \""@;
        let pa11 = pa10 + a.surface_finish@;
        let pa12 = pa11 + "\""@;
        let pb0 = "thickness_mm = "@;
        let pb1 = pb0 + fixed6_text(b.thickness_mm);
        let pb2 = pb1 + "\nmask_color = \""@;
        let pb3 = pb2 + b.mask_color@;
        let pb4 = pb3 + "\"\nmask_color_custom = "@;
        let pb5 = pb4 + triple_text(b.mask_color_custom);
        let pb6 = pb5 + "\nsilks_color = \""@;
        let pb7 = pb6 + b.silks_color@;
        let pb8 = pb7 + "\"\nsilks_color_custom = "@;
        let pb9 = pb8 + triple_text(b.silks_color_custom);
        let pb10 = pb9 + "\nsurface_finish = \""@;
        let pb11 = pb10 + b.surface_finish@;
        let pb12 = pb11 + "\""@;
        assert(stackup_toml(a) == pa12);
        assert(stackup_toml(b) == pb12);
        lemma_suffix_cancel(pa11, pb11, "\""@);
        lemma_suffix_cancel(pa10, pb10, a.surface_finish@);
        lemma_suffix_cancel(pa9, pb9, "\nsurface_finish = \""@);
        lemma_suffix_cancel(pa8, pb8, triple_text(a.silks_color_custom));
        lemma_suffix_cancel(pa7, pb7, "\"\nsilks_color_custom = "@);
        lemma_suffix_cancel(pa6, pb6, a.silks_color@);
        lemma_suffix_cancel(pa5, pb5, "\nsilks_color = \""@);
        assert(pa4 == pb4);
        lemma_prefix_cancel(pa4, triple_text(a.mask_color_custom), triple_text(b.mask_color_custom));
        lemma_triple_text_component(a.mask_color_custom, b.mask_color_custom);
    }
}

/// The stackup TOML tells apart two Stackup values that differ only in `mask_color_custom.1`: their
/// texts are equal exactly when those values are.
pub proof fn lemma_stackup_text_tracks_mask_color_custom_1(a: Stackup, b: Stackup)
    requires
        a.wf(),
        b.wf(),
        a.thickness_mm == b.thickness_mm,
        a.mask_color == b.mask_color,
        a.mask_color_custom.0 == b.mask_color_custom.0,
        a.mask_color_custom.2 == b.mask_color_custom.2,
        a.silks_color == b.silks_color,
        a.silks_color_custom.0 == b.silks_color_custom.0,
        a.silks_color_custom.1 == b.silks_color_custom.1,
        a.silks_color_custom.2 == b.silks_color_custom.2,
        a.surface_finish == b.surface_finish,
    ensures
        (stackup_toml(a) == stackup_toml(b)) <==> (a.mask_color_custom.1 == b.mask_color_custom.1),
{
    if stackup_toml(a) == stackup_toml(b) {
        let pa0 = "thickness_mm = "@;
        let pa1 = pa0 + fixed6_text(a.thickness_mm);
        let pa2 = pa1 + "\nmask_color = \""@;
        let pa3 = pa2 + a.mask_color@;
        let pa4 = pa3 + "\"\nmask_color_custom = "@;
        let pa5 = pa4 + triple_text(a.mask_color_custom);
        let pa6 = pa5 + "\nsilks_color = \""@;
        let pa7 = pa6 + a.silks_color@;
        let pa8 = pa7 + "\"\nsilks_color_custom = "@;
        let pa9 = pa8 + triple_text(a.silks_color_custom);
        let pa10 = pa9 + "\nsurface_finish = \""@;
        let pa11 = pa10 + a.surface_finish@;
        let pa12 = pa11 + "\""@;
        let pb0 = "thickness_mm = "@;
        let pb1 = pb0 + fixed6_text(b.thickness_mm);
        let pb2 = pb1 + "\nmask_color = \""@;
        let pb3 = pb2 + b.mask_color@;
        let pb4 = pb3 + "\"\nmask_color_custom = "@;
        let pb5 = pb4 + triple_text(b.mask_color_custom);
        let pb6 = pb5 + "\nsilks_color = \""@;
        let pb7 = pb6 + b.silks_color@;
        let pb8 = pb7 + "\"\nsilks_color_custom = "@;
        let pb9 = pb8 + triple_text(b.silks_color_custom);
        let pb10 = pb9 + "\nsurface_finish = \""@;
        let pb11 = pb10 + b.surface_finish@;
        let pb12 = pb11 + "\""@;
        assert(stackup_toml(a) == pa12);
        assert(stackup_toml(b) == pb12);
        lemma_suffix_cancel(pa11, pb11, "\""@);
        lemma_suffix_cancel(pa10, pb10, a.surface_finish@);
        lemma_suffix_cancel(pa9, pb9, "\nsurface_finish = \""@);
        lemma_suffix_cancel(pa8, pb8, triple_text(a.silks_color_custom));
        lemma_suffix_cancel(pa7, pb7, "\"\nsilks_color_custom = "@);
        lemma_suffix_cancel(pa6, pb6, a.silks_color@);
        lemma_suffix_cancel(pa5, pb5, "\nsilks_color = \""@);
        assert(pa4 == pb4);
        lemma_prefix_cancel(pa4, triple_text(a.mask_color_custom), triple_text(b.mask_color_custom));
        lemma_triple_text_component(a.mask_color_custom, b.mask_color_custom);
    }
}

/// The stackup TOML tells apart two Stackup values that differ only in `mask_color_custom.2`: their
/// texts are equal exactly when those values are.
pub proof fn lemma_stackup_text_tracks_mask_color_custom_2(a: Stackup, b: Stackup)
    requires
        a.wf(),
        b.wf(),
        a.thickness_mm == b.thickness_mm,
        a.mask_color == b.mask_color,
        a.mask_color_custom.0 == b.mask_color_custom.0,
        a.mask_color_custom.1 == b.mask_color_custom.1,
        a.silks_color == b.silks_color,
        a.silks_color_custom.0 == b.silks_color_custom.0,
        a.silks_color_custom.1 == b.silks_color_custom.1,
        a.silks_color_custom.2 == b.silks_color_custom.2,
        a.surface_finish == b.surface_finish,
    ensures
        (stackup_toml(a) == stackup_toml(b)) <==> (a.mask_color_custom.2 == b.mask_color_custom.2),
{
    if stackup_toml(a) == stackup_toml(b) {
        let pa0 = "thickness_mm = "@;
        let pa1 = pa0 + fixed6_text(a.thickness_mm);
        let pa2 = pa1 + "\nmask_color = \""@;
        let pa3 = pa2 + a.mask_color@;
        let pa4 = pa3 + "\"\nmask_color_custom = "@;
        let pa5 = pa4 + triple_text(a.mask_color_custom);
        let pa6 = pa5 + "\nsilks_color = \""@;
        let pa7 = pa6 + a.silks_color@;
        let pa8 = pa7 + "\"\nsilks_color_custom = "@;
        let pa9 = pa8 + triple_text(a.silks_color_custom);
        let pa10 = pa9 + "\nsurface_finish = \""@;
        let pa11 = pa10 + a.surface_finish@;
        let pa12 = pa11 + "\""@;
        let pb0 = "thickness_mm = "@;
        let pb1 = pb0 + fixed6_text(b.thickness_mm);
        let pb2 = pb1 + "\nmask_color = \""@;
        let pb3 = pb2 + b.mask_color@;
        let pb4 = pb3 + "\"\nmask_color_custom = "@;
        let pb5 = pb4 + triple_text(b.mask_color_custom);
        let pb6 = pb5 + "\nsilks_color = \""@;
        let pb7 = pb6 + b.silks_color@;
        let pb8 = pb7 + "\"\nsilks_color_custom = "@;
        let pb9 = pb8 + triple_text(b.silks_color_custom);
        let pb10 = pb9 + "\nsurface_finish = \""@;
        let pb11 = pb10 + b.surface_finish@;
        let pb12 = pb11 + "\""@;
        assert(stackup_toml(a) == pa12);
        assert(stackup_toml(b) == pb12);
        lemma_suffix_cancel(pa11, pb11, "\""@);
        lemma_suffix_cancel(pa10, pb10, a.surface_finish@);
        lemma_suffix_cancel(pa9, pb9, "\nsurface_finish = \""@);
        lemma_suffix_cancel(pa8, pb8, triple_text(a.silks_color_custom));
        lemma_suffix_cancel(pa7, pb7, "\"\nsilks_color_custom = "@);
        lemma_suffix_cancel(pa6, pb6, a.silks_color@);
        lemma_suffix_cancel(pa5, pb5, "\nsilks_color = \""@);
        assert(pa4 == pb4);
        lemma_prefix_cancel(pa4, triple_text(a.mask_color_custom), triple_text(b.mask_color_custom));
        lemma_triple_text_component(a.mask_color_custom, b.mask_color_custom);
    }
}

/// The stackup TOML tells apart two Stackup values that differ only in `silks_color`: their
/// texts are equal exactly when those values are.
pub proof fn lemma_stackup_text_tracks_silks_color(a: Stackup, b: Stackup)
    requires
        a.wf(),
        b.wf(),
        a.thickness_mm == b.thickness_mm,
        a.mask_color == b.mask_color,
        a.mask_color_custom.0 == b.mask_color_custom.0,
        a.mask_color_custom.1 == b.mask_color_custom.1,
        a.mask_color_custom.2 == b.mask_color_custom.2,
        a.silks_color_custom.0 == b.silks_color_custom.0,
        a.silks_color_custom.1 == b.silks_color_custom.1,
        a.silks_color_custom.2 == b.silks_color_custom.2,
        a.surface_finish == b.surface_finish,
    ensures
        (stackup_toml(a) == stackup_toml(b)) <==> (a.silks_color@ == b.silks_color@),
{
    if stackup_toml(a) == stackup_toml(b) {
        let pa0 = "thickness_mm = "@;
        let pa1 = pa0 + fixed6_text(a.thickness_mm);
        let pa2 = pa1 + "\nmask_color = \""@;
        let pa3 = pa2 + a.mask_color@;
        let pa4 = pa3 + "\"\nmask_color_custom = "@;
        let pa5 = pa4 + triple_text(a.mask_color_custom);
        let pa6 = pa5 + "\nsilks_color = \""@;
        let pa7 = pa6 + a.silks_color@;
        let pa8 = pa7 + "\"\nsilks_color_custom = "@;
        let pa9 = pa8 + triple_text(a.silks_color_custom);
        let pa10 = pa9 + "\nsurface_finish = \""@;
        let pa11 = pa10 + a.surface_finish@;
        let pa12 = pa11 + "\""@;
        let pb0 = "thickness_mm = "@;
        let pb1 = pb0 + fixed6_text(b.thickness_mm);
        let pb2 = pb1 + "\nmask_color = \""@;
        let pb3 = pb2 + b.mask_color@;
        let pb4 = pb3 + "\"\nmask_color_custom = "@;
        let pb5 = pb4 + triple_text(b.mask_color_custom);
        let pb6 = pb5 + "\nsilks_color = \""@;
        let pb7 = pb6 + b.silks_color@;
        let pb8 = pb7 + "\"\nsilks_color_custom = "@;
        let pb9 = pb8 + triple_text(b.silks_color_custom);
        let pb10 = pb9 + "\nsurface_finish = \""@;
        let pb11 = pb10 + b.surface_finish@;
        let pb12 = pb11 + "\""@;
        assert(stackup_toml(a) == pa12);
        assert(stackup_toml(b) == pb12);
        lemma_suffix_cancel(pa11, pb11, "\""@);
        lemma_suffix_cancel(pa10, pb10, a.surface_finish@);
        lemma_suffix_cancel(pa9, pb9, "\nsurface_finish = \""@);
        lemma_suffix_cancel(pa8, pb8, triple_text(a.silks_color_custom));
        lemma_suffix_cancel(pa7, pb7, "\"\nsilks_color_custom = "@);
        assert(pa6 == pb6);
        lemma_prefix_cancel(pa6, a.silks_color@, b.silks_color@);
    }
}

/// The stackup TOML tells apart two Stackup values that differ only in `silks_color_custom.0`: their
/// texts are equal exactly when those values are.
pub proof fn lemma_stackup_text_tracks_silks_color_custom_0(a: Stackup, b: Stackup)
    requires
        a.wf(),
        b.wf(),
        a.thickness_mm == b.thickness_mm,
        a.mask_color == b.mask_color,
        a.mask_color_custom.0 == b.mask_color_custom.0,
        a.mask_color_custom.1 == b.mask_color_custom.1,
        a.mask_color_custom.2 == b.mask_color_custom.2,
        a.silks_color == b.silks_color,
        a.silks_color_custom.1 == b.silks_color_custom.1,
        a.silks_color_custom.2 == b.silks_color_custom.2,
        a.surface_finish == b.surface_finish,
    ensures
        (stackup_toml(a) == stackup_toml(b)) <==> (a.silks_color_custom.0 == b.silks_color_custom.0),
{
    if stackup_toml(a) == stackup_toml(b) {
        let pa0 = "thickness_mm = "@;
        let pa1 = pa0 + fixed6_text(a.thickness_mm);
        let pa2 = pa1 + "\nmask_color = \""@;
        let pa3 = pa2 + a.mask_color@;
        let pa4 = pa3 + "\"\nmask_color_custom = "@;
        let pa5 = pa4 + triple_text(a.mask_color_custom);
        let pa6 = pa5 + "\nsilks_color = \""@;
        let pa7 = pa6 + a.silks_color@;
        let pa8 = pa7 + "\"\nsilks_color_custom = "@;
        let pa9 = pa8 + triple_text(a.silks_color_custom);
        let pa10 = pa9 + "\nsurface_finish = \""@;
        let pa11 = pa10 + a.surface_finish@;
        let pa12 = pa11 + "\""@;
        let pb0 = "thickness_mm = "@;
        let pb1 = pb0 + fixed6_text(b.thickness_mm);
        let pb2 = pb1 + "\nmask_color = \""@;
        let pb3 = pb2 + b.mask_color@;
        let pb4 = pb3 + "\"\nmask_color_custom = "@;
        let pb5 = pb4 + triple_text(b.mask_color_custom);
        let pb6 = pb5 + "\nsilks_color = \""@;
        let pb7 = pb6 + b.silks_color@;
        let pb8 = pb7 + "\"\nsilks_color_custom = "@;
        let pb9 = pb8 + triple_text(b.silks_color_custom);
        let pb10 = pb9 + "\nsurface_finish = \""@;
        let pb11 = pb10 + b.surface_finish@;
        let pb12 = pb11 + "\""@;
        assert(stackup_toml(a) == pa12);
        assert(stackup_toml(b) == pb12);
        lemma_suffix_cancel(pa11, pb11, "\""@);
        lemma_suffix_cancel(pa10, pb10, a.surface_finish@);
        lemma_suffix_cancel(pa9, pb9, "\nsurface_finish = \""@);
        assert(pa8 == pb8);
        lemma_prefix_cancel(pa8, triple_text(a.silks_color_custom), triple_text(b.silks_color_custom));
        lemma_triple_text_component(a.silks_color_custom, b.silks_color_custom);
    }
}

/// The stackup TOML tells apart two Stackup values that differ only in `silks_color_custom.1`: their
/// texts are equal exactly when those values are.
pub proof fn lemma_stackup_text_tracks_silks_color_custom_1(a: Stackup, b: Stackup)
    requires
        a.wf(),
        b.wf(),
        a.thickness_mm == b.thickness_mm,
        a.mask_color == b.mask_color,
        a.mask_color_custom.0 == b.mask_color_custom.0,
        a.mask_color_custom.1 == b.mask_color_custom.1,
        a.mask_color_custom.2 == b.mask_color_custom.2,
        a.silks_color == b.silks_color,
        a.silks_color_custom.0 == b.silks_color_custom.0,
        a.silks_color_custom.2 == b.silks_color_custom.2,
        a.surface_finish == b.surface_finish,
    ensures
        (stackup_toml(a) == stackup_toml(b)) <==> (a.silks_color_custom.1 == b.silks_color_custom.1),
{
    if stackup_toml(a) == stackup_toml(b) {
        let pa0 = "thickness_mm = "@;
        let pa1 = pa0 + fixed6_text(a.thickness_mm);
        let pa2 = pa1 + "\nmask_color = \""@;
        let pa3 = pa2 + a.mask_color@;
        let pa4 = pa3 + "\"\nmask_color_custom = "@;
        let pa5 = pa4 + triple_text(a.mask_color_custom);
        let pa6 = pa5 + "\nsilks_color = \""@;
        let pa7 = pa6 + a.silks_color@;
        let pa8 = pa7 + "\"\nsilks_color_custom = "@;
        let pa9 = pa8 + triple_text(a.silks_color_custom);
        let pa10 = pa9 + "\nsurface_finish = \""@;
        let pa11 = pa10 + a.surface_finish@;
        let pa12 = pa11 + "\""@;
        let pb0 = "thickness_mm = "@;
        let pb1 = pb0 + fixed6_text(b.thickness_mm);
        let pb2 = pb1 + "\nmask_color = \""@;
        let pb3 = pb2 + b.mask_color@;
        let pb4 = pb3 + "\"\nmask_color_custom = "@;
        let pb5 = pb4 + triple_text(b.mask_color_custom);
        let pb6 = pb5 + "\nsilks_color = \""@;
        let pb7 = pb6 + b.silks_color@;
        let pb8 = pb7 + "\"\nsilks_color_custom = "@;
        let pb9 = pb8 + triple_text(b.silks_color_custom);
        let pb10 = pb9 + "\nsurface_finish = \""@;
        let pb11 = pb10 + b.surface_finish@;
        let pb12 = pb11 + "\""@;
        assert(stackup_toml(a) == pa12);
        assert(stackup_toml(b) == pb12);
        lemma_suffix_cancel(pa11, pb11, "\""@);
        lemma_suffix_cancel(pa10, pb10, a.surface_finish@);
        lemma_suffix_cancel(pa9, pb9, "\nsurface_finish = \""@);
        assert(pa8 == pb8);
        lemma_prefix_cancel(pa8, triple_text(a.silks_color_custom), triple_text(b.silks_color_custom));
        lemma_triple_text_component(a.silks_color_custom, b.silks_color_custom);
    }
}

/// The stackup TOML tells apart two Stackup values that differ only in `silks_color_custom.2`: their
/// texts are equal exactly when those values are.
pub proof fn lemma_stackup_text_tracks_silks_color_custom_2(a: Stackup, b: Stackup)
    requires
        a.wf(),
        b.wf(),
        a.thickness_mm == b.thickness_mm,
        a.mask_color == b.mask_color,
        a.mask_color_custom.0 == b.mask_color_custom.0,
        a.mask_color_custom.1 == b.mask_color_custom.1,
        a.mask_color_custom.2 == b.mask_color_custom.2,
        a.silks_color == b.silks_color,
        a.silks_color_custom.0 == b.silks_color_custom.0,
        a.silks_color_custom.1 == b.silks_color_custom.1,
        a.surface_finish == b.surface_finish,
    ensures
        (stackup_toml(a) == stackup_toml(b)) <==> (a.silks_color_custom.2 == b.silks_color_custom.2),
{
    if stackup_toml(a) == stackup_toml(b) {
        let pa0 = "thickness_mm = "@;
        let pa1 = pa0 + fixed6_text(a.thickness_mm);
        let pa2 = pa1 + "\nmask_color = \""@;
        let pa3 = pa2 + a.mask_color@;
        let pa4 = pa3 + "\"\nmask_color_custom = "@;
        let pa5 = pa4 + triple_text(a.mask_color_custom);
        let pa6 = pa5 + "\nsilks_color = \""@;
        let pa7 = pa6 + a.silks_color@;
        let pa8 = pa7 + "\"\nsilks_color_custom = "@;
        let pa9 = pa8 + triple_text(a.silks_color_custom);
        let pa10 = pa9 + "\nsurface_finish = \""@;
        let pa11 = pa10 + a.surface_finish@;
        let pa12 = pa11 + "\""@;
        let pb0 = "thickness_mm = "@;
        let pb1 = pb0 + fixed6_text(b.thickness_mm);
        let pb2 = pb1 + "\nmask_color = \""@;
        let pb3 = pb2 + b.mask_color@;
        let pb4 = pb3 + "\"\nmask_color_custom = "@;
        let pb5 = pb4 + triple_text(b.mask_color_custom);
        let pb6 = pb5 + "\nsilks_color = \""@;
        let pb7 = pb6 + b.silks_color@;
        let pb8 = pb7 + "\"\nsilks_color_custom = "@;
        let pb9 = pb8 + triple_text(b.silks_color_custom);
        let pb10 = pb9 + "\nsurface_finish = \""@;
        let pb11 = pb10 + b.surface_finish@;
        let pb12 = pb11 + "\""@;
        assert(stackup_toml(a) == pa12);
        assert(stackup_toml(b) == pb12);
        lemma_suffix_cancel(pa11, pb11, "\""@);
        lemma_suffix_cancel(pa10, pb10, a.surface_finish@);
        lemma_suffix_cancel(pa9, pb9, "\nsurface_finish = \""@);
        assert(pa8 == pb8);
        lemma_prefix_cancel(pa8, triple_text(a.silks_color_custom), triple_text(b.silks_color_custom));
        lemma_triple_text_component(a.silks_color_custom, b.silks_color_custom);
    }
}

/// The stackup TOML tells apart two Stackup values that differ only in `surface_finish`: their
/// texts are equal exactly when those values are.
pub proof fn lemma_stackup_text_tracks_surface_finish(a: Stackup, b: Stackup)
    requires
        a.wf(),
        b.wf(),
        a.thickness_mm == b.thickness_mm,
        a.mask_color == b.mask_color,
        a.mask_color_custom.0 == b.mask_color_custom.0,
        a.mask_color_custom.1 == b.mask_color_custom.1,
        a.mask_color_custom.2 == b.mask_color_custom.2,
        a.silks_color == b.silks_color,
        a.silks_color_custom.0 == b.silks_color_custom.0,
        a.silks_color_custom.1 == b.silks_color_custom.1,
        a.silks_color_custom.2 == b.silks_color_custom.2,
    ensures
        (stackup_toml(a) == stackup_toml(b)) <==> (a.surface_finish@ == b.surface_finish@),
{
    if stackup_toml(a) == stackup_toml(b) {
        let pa0 = "thickness_mm = "@;
        let pa1 = pa0 + fixed6_text(a.thickness_mm);
        let pa2 = pa1 + "\nmask_color = \""@;
        let pa3 = pa2 + a.mask_color@;
        let pa4 = pa3 + "\"\nmask_color_custom = "@;
        let pa5 = pa4 + triple_text(a.mask_color_custom);
        let pa6 = pa5 + "\nsilks_color = \""@;
        let pa7 = pa6 + a.silks_color@;
        let pa8 = pa7 + "\"\nsilks_color_custom = "@;
        let pa9 = pa8 + triple_text(a.silks_color_custom);
        let pa10 = pa9 + "\nsurface_finish = \""@;
        let pa11 = pa10 + a.surface_finish@;
        let pa12 = pa11 + "\""@;
        let pb0 = "thickness_mm = "@;
        let pb1 = pb0 + fixed6_text(b.thickness_mm);
        let pb2 = pb1 + "\nmask_color = \""@;
        let pb3 = pb2 + b.mask_color@;
        let pb4 = pb3 + "\"\nmask_color_custom = "@;
        let pb5 = pb4 + triple_text(b.mask_color_custom);
        let pb6 = pb5 + "\nsilks_color = \""@;
        let pb7 = pb6 + b.silks_color@;
        let pb8 = pb7 + "\"\nsilks_color_custom = "@;
        let pb9 = pb8 + triple_text(b.silks_color_custom);
        let pb10 = pb9 + "\nsurface_finish = \""@;
        let pb11 = pb10 + b.surface_finish@;
        let pb12 = pb11 + "\""@;
        assert(stackup_toml(a) == pa12);
        assert(stackup_toml(b) == pb12);
        lemma_suffix_cancel(pa11, pb11, "\""@);
        assert(pa10 == pb10);
        lemma_prefix_cancel(pa10, a.surface_finish@, b.surface_finish@);
    }
}

/// The pad TOML tells apart two Pad values that differ only in `position.0`: their
/// texts are equal exactly when those values are.
pub proof fn lemma_pad_text_tracks_position_0(a: Pad, b: Pad)
    requires
        a.wf(),
        b.wf(),
        a.position.1 == b.position.1,
        a.is_flipped == b.is_flipped,
        a.has_model == b.has_model,
        a.is_tht_or_smd == b.is_tht_or_smd,
        a.has_paste == b.has_paste,
        a.pad_type == b.pad_type,
        a.shape == b.shape,
        a.size.0 == b.size.0,
        a.size.1 == b.size.1,
        a.rotation == b.rotation,
        a.roundness == b.roundness,
        a.drill_shape == b.drill_shape,
        a.drill_size.0 == b.drill_size.0,
        a.drill_size.1 == b.drill_size.1,
        a.fab_type == b.fab_type,
    ensures
        (pad_toml(a) == pad_toml(b)) <==> (a.position.0 == b.position.0),
{
    if pad_toml(a) == pad_toml(b) {
        let pa0 = "position = "@;
        let pa1 = pa0 + pair_text(a.position);
        let pa2 = pa1 + "\nis_flipped = "@;
        let pa3 = pa2 + bool_text(a.is_flipped);
        let pa4 = pa3 + "\nhas_model = "@;
        let pa5 = pa4 + bool_text(a.has_model);
        let pa6 = pa5 + "\nis_tht_or_smd = "@;
        let pa7 = pa6 + bool_text(a.is_tht_or_smd);
        let pa8 = pa7 + "\nhas_paste = "@;
        let pa9 = pa8 + bool_text(a.has_paste);
        let pa10 = pa9 + "\npad_type = \""@;
        let pa11 = pa10 + a.pad_type.label_text();
        let pa12 = pa11 + "\"\nshape = \""@;
        let pa13 = pa12 + a.shape.label_text();
        let pa14 = pa13 + "\"\nsize = "@;
        let pa15 = pa14 + pair_text(a.size);
        let pa16 = pa15 + "\nrotation = "@;
        let pa17 = pa16 + fixed6_text(a.rotation);
        let pa18 = pa17 + "\nroundness = "@;
        let pa19 = pa18 + fixed6_text(a.roundness);
        let pa20 = pa19 + "\ndrill_shape = \""@;
        let pa21 = pa20 + a.drill_shape.label_text();
        let pa22 = pa21 + "\"\ndrill_size = "@;
        let pa23 = pa22 + pair_text(a.drill_size);
        let pa24 = pa23 + "\nfab_type = \""@;
        let pa25 = pa24 + a.fab_type.label_text();
        let pa26 = pa25 + "\""@;
        let pb0 = "position = "@;
        let pb1 = pb0 + pair_text(b.position);
        let pb2 = pb1 + "\nis_flipped = "@;
        let pb3 = pb2 + bool_text(b.is_flipped);
        let pb4 = pb3 + "\nhas_model = "@;
        let pb5 = pb4 + bool_text(b.has_model);
        let pb6 = pb5 + "\nis_tht_or_smd = "@;
        let pb7 = pb6 + bool_text(b.is_tht_or_smd);
        let pb8 = pb7 + "\nhas_paste = "@;
        let pb9 = pb8 + bool_text(b.has_paste);
        let pb10 = pb9 + "\npad_type = \""@;
        let pb11 = pb10 + b.pad_type.label_text();
        let pb12 = pb11 + "\"\nshape = \""@;
        let pb13 = pb12 + b.shape.label_text();
        let pb14 = pb13 + "\"\nsize = "@;
        let pb15 = pb14 + pair_text(b.size);
        let pb16 = pb15 + "\nrotation = "@;
        let pb17 = pb16 + fixed6_text(b.rotation);
        let pb18 = pb17 + "\nroundness = "@;
        let pb19 = pb18 + fixed6_text(b.roundness);
        let pb20 = pb19 + "\ndrill_shape = \""@;
        let pb21 = pb20 + b.drill_shape.label_text();
        let pb22 = pb21 + "\"\ndrill_size = "@;
        let pb23 = pb22 + pair_text(b.drill_size);
        let pb24 = pb23 + "\nfab_type = \""@;
        let pb25 = pb24 + b.fab_type.label_text();
        let pb26 = pb25 + "\""@;
        assert(pad_toml(a) == pa26);
        assert(pad_toml(b) == pb26);
        lemma_suffix_cancel(pa25, pb25, "\""@);
        lemma_suffix_cancel(pa24, pb24, a.fab_type.label_text());
        lemma_suffix_cancel(pa23, pb23, "\nfab_type = \""@);
        lemma_suffix_cancel(pa22, pb22, pair_text(a.drill_size));
        lemma_suffix_cancel(pa21, pb21, "\"\ndrill_size = "@);
        lemma_suffix_cancel(pa20, pb20, a.drill_shape.label_text());
        lemma_suffix_cancel(pa19, pb19, "\ndrill_shape = \""@);
        lemma_suffix_cancel(pa18, pb18, fixed6_text(a.roundness));
        lemma_suffix_cancel(pa17, pb17, "\nroundness = "@);
        lemma_suffix_cancel(pa16, pb16, fixed6_text(a.rotation));
        lemma_suffix_cancel(pa15, pb15, "\nrotation = "@);
        lemma_suffix_cancel(pa14, pb14, pair_text(a.size));
        lemma_suffix_cancel(pa13, pb13, "\"\nsize = "@);
        lemma_suffix_cancel(pa12, pb12, a.shape.label_text());
        lemma_suffix_cancel(pa11, pb11, "\"\nshape = \""@);
        lemma_suffix_cancel(pa10, pb10, a.pad_type.label_text());
        lemma_suffix_cancel(pa9, pb9, "\npad_type = \""@);
        lemma_suffix_cancel(pa8, pb8, bool_text(a.has_paste));
        lemma_suffix_cancel(pa7, pb7, "\nhas_paste = "@);
        lemma_suffix_cancel(pa6, pb6, bool_text(a.is_tht_or_smd));
        lemma_suffix_cancel(pa5, pb5, "\nis_tht_or_smd = "@);
        lemma_suffix_cancel(pa4, pb4, bool_text(a.has_model));
        lemma_suffix_cancel(pa3, pb3, "\nhas_model = "@);
        lemma_suffix_cancel(pa2, pb2, bool_text(a.is_flipped));
        lemma_suffix_cancel(pa1, pb1, "\nis_flipped = "@);
        assert(pa0 == pb0);
        lemma_prefix_cancel(pa0, pair_text(a.position), pair_text(b.position));
        lemma_pair_text_component(a.position, b.position);
    }
}

/// The pad TOML tells apart two Pad values that differ only in `position.1`: their
/// texts are equal exactly when those values are.
pub proof fn lemma_pad_text_tracks_position_1(a: Pad, b: Pad)
    requires
        a.wf(),
        b.wf(),
        a.position.0 == b.position.0,
        a.is_flipped == b.is_flipped,
        a.has_model == b.has_model,
        a.is_tht_or_smd == b.is_tht_or_smd,
        a.has_paste == b.has_paste,
        a.pad_type == b.pad_type,
        a.shape == b.shape,
        a.size.0 == b.size.0,
        a.size.1 == b.size.1,
        a.rotation == b.rotation,
        a.roundness == b.roundness,
        a.drill_shape == b.drill_shape,
        a.drill_size.0 == b.drill_size.0,
        a.drill_size.1 == b.drill_size.1,
        a.fab_type == b.fab_type,
    ensures
        (pad_toml(a) == pad_toml(b)) <==> (a.position.1 == b.position.1),
{
    if pad_toml(a) == pad_toml(b) {
        let pa0 = "position = "@;
        let pa1 = pa0 + pair_text(a.position);
        let pa2 = pa1 + "\nis_flipped = "@;
        let pa3 = pa2 + bool_text(a.is_flipped);
        let pa4 = pa3 + "\nhas_model = "@;
        let pa5 = pa4 + bool_text(a.has_model);
        let pa6 = pa5 + "\nis_tht_or_smd = "@;
        let pa7 = pa6 + bool_text(a.is_tht_or_smd);
        let pa8 = pa7 + "\nhas_paste = "@;
        let pa9 = pa8 + bool_text(a.has_paste);
        let pa10 = pa9 + "\npad_type = \""@;
        let pa11 = pa10 + a.pad_type.label_text();
        let pa12 = pa11 + "\"\nshape = \""@;
        let pa13 = pa12 + a.shape.label_text();
        let pa14 = pa13 + "\"\nsize = "@;
        let pa15 = pa14 + pair_text(a.size);
        let pa16 = pa15 + "\nrotation = "@;
        let pa17 = pa16 + fixed6_text(a.rotation);
        let pa18 = pa17 + "\nroundness = "@;
        let pa19 = pa18 + fixed6_text(a.roundness);
        let pa20 = pa19 + "\ndrill_shape = \""@;
        let pa21 = pa20 + a.drill_shape.label_text();
        let pa22 = pa21 + "\"\ndrill_size = "@;
        let pa23 = pa22 + pair_text(a.drill_size);
        let pa24 = pa23 + "\nfab_type = \""@;
        let pa25 = pa24 + a.fab_type.label_text();
        let pa26 = pa25 + "\""@;
        let pb0 = "position = "@;
        let pb1 = pb0 + pair_text(b.position);
        let pb2 = pb1 + "\nis_flipped = "@;
        let pb3 = pb2 + bool_text(b.is_flipped);
        let pb4 = pb3 + "\nhas_model = "@;
        let pb5 = pb4 + bool_text(b.has_model);
        let pb6 = pb5 + "\nis_tht_or_smd = "@;
        let pb7 = pb6 + bool_text(b.is_tht_or_smd);
        let pb8 = pb7 + "\nhas_paste = "@;
        let pb9 = pb8 + bool_text(b.has_paste);
        let pb10 = pb9 + "\npad_type = \""@;
        let pb11 = pb10 + b.pad_type.label_text();
        let pb12 = pb11 + "\"\nshape = \""@;
        let pb13 = pb12 + b.shape.label_text();
        let pb14 = pb13 + "\"\nsize = "@;
        let pb15 = pb14 + pair_text(b.size);
        let pb16 = pb15 + "\nrotation = "@;
        let pb17 = pb16 + fixed6_text(b.rotation);
        let pb18 = pb17 + "\nroundness = "@;
        let pb19 = pb18 + fixed6_text(b.roundness);
        let pb20 = pb19 + "\ndrill_shape = \""@;
        let pb21 = pb20 + b.drill_shape.label_text();
        let pb22 = pb21 + "\"\ndrill_size = "@;
        let pb23 = pb22 + pair_text(b.drill_size);
        let pb24 = pb23 + "\nfab_type = \""@;
        let pb25 = pb24 + b.fab_type.label_text();
        let pb26 = pb25 + "\""@;
        assert(pad_toml(a) == pa26);
        assert(pad_toml(b) == pb26);
        lemma_suffix_cancel(pa25, pb25, "\""@);
        lemma_suffix_cancel(pa24, pb24, a.fab_type.label_text());
        lemma_suffix_cancel(pa23, pb23, "\nfab_type = \""@);
        lemma_suffix_cancel(pa22, pb22, pair_text(a.drill_size));
        lemma_suffix_cancel(pa21, pb21, "\"\ndrill_size = "@);
        lemma_suffix_cancel(pa20, pb20, a.drill_shape.label_text());
        lemma_suffix_cancel(pa19, pb19, "\ndrill_shape = \""@);
        lemma_suffix_cancel(pa18, pb18, fixed6_text(a.roundness));
        lemma_suffix_cancel(pa17, pb17, "\nroundness = "@);
        lemma_suffix_cancel(pa16, pb16, fixed6_text(a.rotation));
        lemma_suffix_cancel(pa15, pb15, "\nrotation = "@);
        lemma_suffix_cancel(pa14, pb14, pair_text(a.size));
        lemma_suffix_cancel(pa13, pb13, "\"\nsize = "@);
        lemma_suffix_cancel(pa12, pb12, a.shape.label_text());
        lemma_suffix_cancel(pa11, pb11, "\"\nshape = \""@);
        lemma_suffix_cancel(pa10, pb10, a.pad_type.label_text());
        lemma_suffix_cancel(pa9, pb9, "\npad_type = \""@);
        lemma_suffix_cancel(pa8, pb8, bool_text(a.has_paste));
        lemma_suffix_cancel(pa7, pb7, "\nhas_paste = "@);
        lemma_suffix_cancel(pa6, pb6, bool_text(a.is_tht_or_smd));
        lemma_suffix_cancel(pa5, pb5, "\nis_tht_or_smd = "@);
        lemma_suffix_cancel(pa4, pb4, bool_text(a.has_model));
        lemma_suffix_cancel(pa3, pb3, "\nhas_model = "@);
        lemma_suffix_cancel(pa2, pb2, bool_text(a.is_flipped));
        lemma_suffix_cancel(pa1, pb1, "\nis_flipped = "@);
        assert(pa0 == pb0);
        lemma_prefix_cancel(pa0, pair_text(a.position), pair_text(b.position));
        lemma_pair_text_component(a.position, b.position);
    }
}

/// The pad TOML tells apart two Pad values that differ only in `is_flipped`: their
/// texts are equal exactly when those values are.
pub proof fn lemma_pad_text_tracks_is_flipped(a: Pad, b: Pad)
    requires
        a.wf(),
        b.wf(),
        a.position.0 == b.position.0,
        a.position.1 == b.position.1,
        a.has_model == b.has_model,
        a.is_tht_or_smd == b.is_tht_or_smd,
        a.has_paste == b.has_paste,
        a.pad_type == b.pad_type,
        a.shape == b.shape,
        a.size.0 == b.size.0,
        a.size.1 == b.size.1,
        a.rotation == b.rotation,
        a.roundness == b.roundness,
        a.drill_shape == b.drill_shape,
        a.drill_size.0 == b.drill_size.0,
        a.drill_size.1 == b.drill_size.1,
        a.fab_type == b.fab_type,
    ensures
        (pad_toml(a) == pad_toml(b)) <==> (a.is_flipped == b.is_flipped),
{
    if pad_toml(a) == pad_toml(b) {
        let pa0 = "position = "@;
        let pa1 = pa0 + pair_text(a.position);
        let pa2 = pa1 + "\nis_flipped = "@;
        let pa3 = pa2 + bool_text(a.is_flipped);
        let pa4 = pa3 + "\nhas_model = "@;
        let pa5 = pa4 + bool_text(a.has_model);
        let pa6 = pa5 + "\nis_tht_or_smd = "@;
        let pa7 = pa6 + bool_text(a.is_tht_or_smd);
        let pa8 = pa7 + "\nhas_paste = "@;
        let pa9 = pa8 + bool_text(a.has_paste);
        let pa10 = pa9 + "\npad_type = \""@;
        let pa11 = pa10 + a.pad_type.label_text();
        let pa12 = pa11 + "\"\nshape = \""@;
        let pa13 = pa12 + a.shape.label_text();
        let pa14 = pa13 + "\"\nsize = "@;
        let pa15 = pa14 + pair_text(a.size);
        let pa16 = pa15 + "\nrotation = "@;
        let pa17 = pa16 + fixed6_text(a.rotation);
        let pa18 = pa17 + "\nroundness = "@;
        let pa19 = pa18 + fixed6_text(a.roundness);
        let pa20 = pa19 + "\ndrill_shape = \""@;
        let pa21 = pa20 + a.drill_shape.label_text();
        let pa22 = pa21 + "\"\ndrill_size = "@;
        let pa23 = pa22 + pair_text(a.drill_size);
        let pa24 = pa23 + "\nfab_type = \""@;
        let pa25 = pa24 + a.fab_type.label_text();
        let pa26 = pa25 + "\""@;
        let pb0 = "position = "@;
        let pb1 = pb0 + pair_text(b.position);
        let pb2 = pb1 + "\nis_flipped = "@;
        let pb3 = pb2 + bool_text(b.is_flipped);
        let pb4 = pb3 + "\nhas_model = "@;
        let pb5 = pb4 + bool_text(b.has_model);
        let pb6 = pb5 + "\nis_tht_or_smd = "@;
        let pb7 = pb6 + bool_text(b.is_tht_or_smd);
        let pb8 = pb7 + "\nhas_paste = "@;
        let pb9 = pb8 + bool_text(b.has_paste);
        let pb10 = pb9 + "\npad_type = \""@;
        let pb11 = pb10 + b.pad_type.label_text();
        let pb12 = pb11 + "\"\nshape = \""@;
        let pb13 = pb12 + b.shape.label_text();
        let pb14 = pb13 + "\"\nsize = "@;
        let pb15 = pb14 + pair_text(b.size);
        let pb16 = pb15 + "\nrotation = "@;
        let pb17 = pb16 + fixed6_text(b.rotation);
        let pb18 = pb17 + "\nroundness = "@;
        let pb19 = pb18 + fixed6_text(b.roundness);
        let pb20 = pb19 + "\ndrill_shape = \""@;
        let pb21 = pb20 + b.drill_shape.label_text();
        let pb22 = pb21 + "\"\ndrill_size = "@;
        let pb23 = pb22 + pair_text(b.drill_size);
        let pb24 = pb23 + "\nfab_type = \""@;
        let pb25 = pb24 + b.fab_type.label_text();
        let pb26 = pb25 + "\""@;
        assert(pad_toml(a) == pa26);
        assert(pad_toml(b) == pb26);
        lemma_suffix_cancel(pa25, pb25, "\""@);
        lemma_suffix_cancel(pa24, pb24, a.fab_type.label_text());
        lemma_suffix_cancel(pa23, pb23, "\nfab_type = \""@);
        lemma_suffix_cancel(pa22, pb22, pair_text(a.drill_size));
        lemma_suffix_cancel(pa21, pb21, "\"\ndrill_size = "@);
        lemma_suffix_cancel(pa20, pb20, a.drill_shape.label_text());
        lemma_suffix_cancel(pa19, pb19, "\ndrill_shape = \""@);
        lemma_suffix_cancel(pa18, pb18, fixed6_text(a.roundness));
        lemma_suffix_cancel(pa17, pb17, "\nroundness = "@);
        lemma_suffix_cancel(pa16, pb16, fixed6_text(a.rotation));
        lemma_suffix_cancel(pa15, pb15, "\nrotation = "@);
        lemma_suffix_cancel(pa14, pb14, pair_text(a.size));
        lemma_suffix_cancel(pa13, pb13, "\"\nsize = "@);
        lemma_suffix_cancel(pa12, pb12, a.shape.label_text());
        lemma_suffix_cancel(pa11, pb11, "\"\nshape = \""@);
        lemma_suffix_cancel(pa10, pb10, a.pad_type.label_text());
        lemma_suffix_cancel(pa9, pb9, "\npad_type = \""@);
        lemma_suffix_cancel(pa8, pb8, bool_text(a.has_paste));
        lemma_suffix_cancel(pa7, pb7, "\nhas_paste = "@);
        lemma_suffix_cancel(pa6, pb6, bool_text(a.is_tht_or_smd));
        lemma_suffix_cancel(pa5, pb5, "\nis_tht_or_smd = "@);
        lemma_suffix_cancel(pa4, pb4, bool_text(a.has_model));
        lemma_suffix_cancel(pa3, pb3, "\nhas_model = "@);
        assert(pa2 == pb2);
        lemma_prefix_cancel(pa2, bool_text(a.is_flipped), bool_text(b.is_flipped));
        lemma_bool_text_injective(a.is_flipped, b.is_flipped);
    }
}

/// The pad TOML tells apart two Pad values that differ only in `has_model`: their
/// texts are equal exactly when those values are.
pub proof fn lemma_pad_text_tracks_has_model(a: Pad, b: Pad)
    requires
        a.wf(),
        b.wf(),
        a.position.0 == b.position.0,
        a.position.1 == b.position.1,
        a.is_flipped == b.is_flipped,
        a.is_tht_or_smd == b.is_tht_or_smd,
        a.has_paste == b.has_paste,
        a.pad_type == b.pad_type,
        a.shape == b.shape,
        a.size.0 == b.size.0,
        a.size.1 == b.size.1,
        a.rotation == b.rotation,
        a.roundness == b.roundness,
        a.drill_shape == b.drill_shape,
        a.drill_size.0 == b.drill_size.0,
        a.drill_size.1 == b.drill_size.1,
        a.fab_type == b.fab_type,
    ensures
        (pad_toml(a) == pad_toml(b)) <==> (a.has_model == b.has_model),
{
    if pad_toml(a) == pad_toml(b) {
        let pa0 = "position = "@;
        let pa1 = pa0 + pair_text(a.position);
        let pa2 = pa1 + "\nis_flipped = "@;
        let pa3 = pa2 + bool_text(a.is_flipped);
        let pa4 = pa3 + "\nhas_model = "@;
        let pa5 = pa4 + bool_text(a.has_model);
        let pa6 = pa5 + "\nis_tht_or_smd = "@;
        let pa7 = pa6 + bool_text(a.is_tht_or_smd);
        let pa8 = pa7 + "\nhas_paste = "@;
        let pa9 = pa8 + bool_text(a.has_paste);
        let pa10 = pa9 + "\npad_type = \""@;
        let pa11 = pa10 + a.pad_type.label_text();
        let pa12 = pa11 + "\"\nshape = \""@;
        let pa13 = pa12 + a.shape.label_text();
        let pa14 = pa13 + "\"\nsize = "@;
        let pa15 = pa14 + pair_text(a.size);
        let pa16 = pa15 + "\nrotation = "@;
        let pa17 = pa16 + fixed6_text(a.rotation);
        let pa18 = pa17 + "\nroundness = "@;
        let pa19 = pa18 + fixed6_text(a.roundness);
        let pa20 = pa19 + "\ndrill_shape = \""@;
        let pa21 = pa20 + a.drill_shape.label_text();
        let pa22 = pa21 + "\"\ndrill_size = "@;
        let pa23 = pa22 + pair_text(a.drill_size);
        let pa24 = pa23 + "\nfab_type = \""@;
        let pa25 = pa24 + a.fab_type.label_text();
        let pa26 = pa25 + "\""@;
        let pb0 = "position = "@;
        let pb1 = pb0 + pair_text(b.position);
        let pb2 = pb1 + "\nis_flipped = "@;
        let pb3 = pb2 + bool_text(b.is_flipped);
        let pb4 = pb3 + "\nhas_model = "@;
        let pb5 = pb4 + bool_text(b.has_model);
        let pb6 = pb5 + "\nis_tht_or_smd = "@;
        let pb7 = pb6 + bool_text(b.is_tht_or_smd);
        let pb8 = pb7 + "\nhas_paste = "@;
        let pb9 = pb8 + bool_text(b.has_paste);
        let pb10 = pb9 + "\npad_type = \""@;
        let pb11 = pb10 + b.pad_type.label_text();
        let pb12 = pb11 + "\"\nshape = \""@;
        let pb13 = pb12 + b.shape.label_text();
        let pb14 = pb13 + "\"\nsize = "@;
        let pb15 = pb14 + pair_text(b.size);
        let pb16 = pb15 + "\nrotation = "@;
        let pb17 = pb16 + fixed6_text(b.rotation);
        let pb18 = pb17 + "\nroundness = "@;
        let pb19 = pb18 + fixed6_text(b.roundness);
        let pb20 = pb19 + "\ndrill_shape = \""@;
        let pb21 = pb20 + b.drill_shape.label_text();
        let pb22 = pb21 + "\"\ndrill_size = "@;
        let pb23 = pb22 + pair_text(b.drill_size);
        let pb24 = pb23 + "\nfab_type = \""@;
        let pb25 = pb24 + b.fab_type.label_text();
        let pb26 = pb25 + "\""@;
        assert(pad_toml(a) == pa26);
        assert(pad_toml(b) == pb26);
        lemma_suffix_cancel(pa25, pb25, "\""@);
        lemma_suffix_cancel(pa24, pb24, a.fab_type.label_text());
        lemma_suffix_cancel(pa23, pb23, "\nfab_type = \""@);
        lemma_suffix_cancel(pa22, pb22, pair_text(a.drill_size));
        lemma_suffix_cancel(pa21, pb21, "\"\ndrill_size = "@);
        lemma_suffix_cancel(pa20, pb20, a.drill_shape.label_text());
        lemma_suffix_cancel(pa19, pb19, "\ndrill_shape = \""@);
        lemma_suffix_cancel(pa18, pb18, fixed6_text(a.roundness));
        lemma_suffix_cancel(pa17, pb17, "\nroundness = "@);
        lemma_suffix_cancel(pa16, pb16, fixed6_text(a.rotation));
        lemma_suffix_cancel(pa15, pb15, "\nrotation = "@);
        lemma_suffix_cancel(pa14, pb14, pair_text(a.size));
        lemma_suffix_cancel(pa13, pb13, "\"\nsize = "@);
        lemma_suffix_cancel(pa12, pb12, a.shape.label_text());
        lemma_suffix_cancel(pa11, pb11, "\"\nshape = \""@);
        lemma_suffix_cancel(pa10, pb10, a.pad_type.label_text());
        lemma_suffix_cancel(pa9, pb9, "\npad_type = \""@);
        lemma_suffix_cancel(pa8, pb8, bool_text(a.has_paste));
        lemma_suffix_cancel(pa7, pb7, "\nhas_paste = "@);
        lemma_suffix_cancel(pa6, pb6, bool_text(a.is_tht_or_smd));
        lemma_suffix_cancel(pa5, pb5, "\nis_tht_or_smd = "@);
        assert(pa4 == pb4);
        lemma_prefix_cancel(pa4, bool_text(a.has_model), bool_text(b.has_model));
        lemma_bool_text_injective(a.has_model, b.has_model);
    }
}

/// The pad TOML tells apart two Pad values that differ only in `is_tht_or_smd`: their
/// texts are equal exactly when those values are.
pub proof fn lemma_pad_text_tracks_is_tht_or_smd(a: Pad, b: Pad)
    requires
        a.wf(),
        b.wf(),
        a.position.0 == b.position.0,
        a.position.1 == b.position.1,
        a.is_flipped == b.is_flipped,
        a.has_model == b.has_model,
        a.has_paste == b.has_paste,
        a.pad_type == b.pad_type,
        a.shape == b.shape,
        a.size.0 == b.size.0,
        a.size.1 == b.size.1,
        a.rotation == b.rotation,
        a.roundness == b.roundness,
        a.drill_shape == b.drill_shape,
        a.drill_size.0 == b.drill_size.0,
        a.drill_size.1 == b.drill_size.1,
        a.fab_type == b.fab_type,
    ensures
        (pad_toml(a) == pad_toml(b)) <==> (a.is_tht_or_smd == b.is_tht_or_smd),
{
    if pad_toml(a) == pad_toml(b) {
        let pa0 = "position = "@;
        let pa1 = pa0 + pair_text(a.position);
        let pa2 = pa1 + "\nis_flipped = "@;
        let pa3 = pa2 + bool_text(a.is_flipped);
        let pa4 = pa3 + "\nhas_model = "@;
        let pa5 = pa4 + bool_text(a.has_model);
        let pa6 = pa5 + "\nis_tht_or_smd = "@;
        let pa7 = pa6 + bool_text(a.is_tht_or_smd);
        let pa8 = pa7 + "\nhas_paste = "@;
        let pa9 = pa8 + bool_text(a.has_paste);
        let pa10 = pa9 + "\npad_type = \""@;
        let pa11 = pa10 + a.pad_type.label_text();
        let pa12 = pa11 + "\"\nshape = \""@;
        let pa13 = pa12 + a.shape.label_text();
        let pa14 = pa13 + "\"\nsize = "@;
        let pa15 = pa14 + pair_text(a.size);
        let pa16 = pa15 + "\nrotation = "@;
        let pa17 = pa16 + fixed6_text(a.rotation);
        let pa18 = pa17 + "\nroundness = "@;
        let pa19 = pa18 + fixed6_text(a.roundness);
        let pa20 = pa19 + "\ndrill_shape = \""@;
        let pa21 = pa20 + a.drill_shape.label_text();
        let pa22 = pa21 + "\"\ndrill_size = "@;
        let pa23 = pa22 + pair_text(a.drill_size);
        let pa24 = pa23 + "\nfab_type = \""@;
        let pa25 = pa24 + a.fab_type.label_text();
        let pa26 = pa25 + "\""@;
        let pb0 = "position = "@;
        let pb1 = pb0 + pair_text(b.position);
        let pb2 = pb1 + "\nis_flipped = "@;
        let pb3 = pb2 + bool_text(b.is_flipped);
        let pb4 = pb3 + "\nhas_model = "@;
        let pb5 = pb4 + bool_text(b.has_model);
        let pb6 = pb5 + "\nis_tht_or_smd = "@;
        let pb7 = pb6 + bool_text(b.is_tht_or_smd);
        let pb8 = pb7 + "\nhas_paste = "@;
        let pb9 = pb8 + bool_text(b.has_paste);
        let pb10 = pb9 + "\npad_type = \""@;
        let pb11 = pb10 + b.pad_type.label_text();
        let pb12 = pb11 + "\"\nshape = \""@;
        let pb13 = pb12 + b.shape.label_text();
        let pb14 = pb13 + "\"\nsize = "@;
        let pb15 = pb14 + pair_text(b.size);
        let pb16 = pb15 + "\nrotation = "@;
        let pb17 = pb16 + fixed6_text(b.rotation);
        let pb18 = pb17 + "\nroundness = "@;
        let pb19 = pb18 + fixed6_text(b.roundness);
        let pb20 = pb19 + "\ndrill_shape = \""@;
        let pb21 = pb20 + b.drill_shape.label_text();
        let pb22 = pb21 + "\"\ndrill_size = "@;
        let pb23 = pb22 + pair_text(b.drill_size);
        let pb24 = pb23 + "\nfab_type = \""@;
        let pb25 = pb24 + b.fab_type.label_text();
        let pb26 = pb25 + "\""@;
        assert(pad_toml(a) == pa26);
        assert(pad_toml(b) == pb26);
        lemma_suffix_cancel(pa25, pb25, "\""@);
        lemma_suffix_cancel(pa24, pb24, a.fab_type.label_text());
        lemma_suffix_cancel(pa23, pb23, "\nfab_type = \""@);
        lemma_suffix_cancel(pa22, pb22, pair_text(a.drill_size));
        lemma_suffix_cancel(pa21, pb21, "\"\ndrill_size = "@);
        lemma_suffix_cancel(pa20, pb20, a.drill_shape.label_text());
        lemma_suffix_cancel(pa19, pb19, "\ndrill_shape = \""@);
        lemma_suffix_cancel(pa18, pb18, fixed6_text(a.roundness));
        lemma_suffix_cancel(pa17, pb17, "\nroundness = "@);
        lemma_suffix_cancel(pa16, pb16, fixed6_text(a.rotation));
        lemma_suffix_cancel(pa15, pb15, "\nrotation = "@);
        lemma_suffix_cancel(pa14, pb14, pair_text(a.size));
        lemma_suffix_cancel(pa13, pb13, "\"\nsize = "@);
        lemma_suffix_cancel(pa12, pb12, a.shape.label_text());
        lemma_suffix_cancel(pa11, pb11, "\"\nshape = \""@);
        lemma_suffix_cancel(pa10, pb10, a.pad_type.label_text());
        lemma_suffix_cancel(pa9, pb9, "\npad_type = \""@);
        lemma_suffix_cancel(pa8, pb8, bool_text(a.has_paste));
        lemma_suffix_cancel(pa7, pb7, "\nhas_paste = "@);
        assert(pa6 == pb6);
        lemma_prefix_cancel(pa6, bool_text(a.is_tht_or_smd), bool_text(b.is_tht_or_smd));
        lemma_bool_text_injective(a.is_tht_or_smd, b.is_tht_or_smd);
    }
}

/// The pad TOML tells apart two Pad values that differ only in `has_paste`: their
/// texts are equal exactly when those values are.
pub proof fn lemma_pad_text_tracks_has_paste(a: Pad, b: Pad)
    requires
        a.wf(),
        b.wf(),
        a.position.0 == b.position.0,
        a.position.1 == b.position.1,
        a.is_flipped == b.is_flipped,
        a.has_model == b.has_model,
        a.is_tht_or_smd == b.is_tht_or_smd,
        a.pad_type == b.pad_type,
        a.shape == b.shape,
        a.size.0 == b.size.0,
        a.size.1 == b.size.1,
        a.rotation == b.rotation,
        a.roundness == b.roundness,
        a.drill_shape == b.drill_shape,
        a.drill_size.0 == b.drill_size.0,
        a.drill_size.1 == b.drill_size.1,
        a.fab_type == b.fab_type,
    ensures
        (pad_toml(a) == pad_toml(b)) <==> (a.has_paste == b.has_paste),
{
    if pad_toml(a) == pad_toml(b) {
        let pa0 = "position = "@;
        let pa1 = pa0 + pair_text(a.position);
        let pa2 = pa1 + "\nis_flipped = "@;
        let pa3 = pa2 + bool_text(a.is_flipped);
        let pa4 = pa3 + "\nhas_model = "@;
        let pa5 = pa4 + bool_text(a.has_model);
        let pa6 = pa5 + "\nis_tht_or_smd = "@;
        let pa7 = pa6 + bool_text(a.is_tht_or_smd);
        let pa8 = pa7 + "\nhas_paste = "@;
        let pa9 = pa8 + bool_text(a.has_paste);
        let pa10 = pa9 + "\npad_type = \""@;
        let pa11 = pa10 + a.pad_type.label_text();
        let pa12 = pa11 + "\"\nshape = \""@;
        let pa13 = pa12 + a.shape.label_text();
        let pa14 = pa13 + "\"\nsize = "@;
        let pa15 = pa14 + pair_text(a.size);
        let pa16 = pa15 + "\nrotation = "@;
        let pa17 = pa16 + fixed6_text(a.rotation);
        let pa18 = pa17 + "\nroundness = "@;
        let pa19 = pa18 + fixed6_text(a.roundness);
        let pa20 = pa19 + "\ndrill_shape = \""@;
        let pa21 = pa20 + a.drill_shape.label_text();
        let pa22 = pa21 + "\"\ndrill_size = "@;
        let pa23 = pa22 + pair_text(a.drill_size);
        let pa24 = pa23 + "\nfab_type = \""@;
        let pa25 = pa24 + a.fab_type.label_text();
        let pa26 = pa25 + "\""@;
        let pb0 = "position = "@;
        let pb1 = pb0 + pair_text(b.position);
        let pb2 = pb1 + "\nis_flipped = "@;
        let pb3 = pb2 + bool_text(b.is_flipped);
        let pb4 = pb3 + "\nhas_model = "@;
        let pb5 = pb4 + bool_text(b.has_model);
        let pb6 = pb5 + "\nis_tht_or_smd = "@;
        let pb7 = pb6 + bool_text(b.is_tht_or_smd);
        let pb8 = pb7 + "\nhas_paste = "@;
        let pb9 = pb8 + bool_text(b.has_paste);
        let pb10 = pb9 + "\npad_type = \""@;
        let pb11 = pb10 + b.pad_type.label_text();
        let pb12 = pb11 + "\"\nshape = \""@;
        let pb13 = pb12 + b.shape.label_text();
        let pb14 = pb13 + "\"\nsize = "@;
        let pb15 = pb14 + pair_text(b.size);
        let pb16 = pb15 + "\nrotation = "@;
        let pb17 = pb16 + fixed6_text(b.rotation);
        let pb18 = pb17 + "\nroundness = "@;
        let pb19 = pb18 + fixed6_text(b.roundness);
        let pb20 = pb19 + "\ndrill_shape = \""@;
        let pb21 = pb20 + b.drill_shape.label_text();
        let pb22 = pb21 + "\"\ndrill_size = "@;
        let pb23 = pb22 + pair_text(b.drill_size);
        let pb24 = pb23 + "\nfab_type = \""@;
        let pb25 = pb24 + b.fab_type.label_text();
        let pb26 = pb25 + "\""@;
        assert(pad_toml(a) == pa26);
        assert(pad_toml(b) == pb26);
        lemma_suffix_cancel(pa25, pb25, "\""@);
        lemma_suffix_cancel(pa24, pb24, a.fab_type.label_text());
        lemma_suffix_cancel(pa23, pb23, "\nfab_type = \""@);
        lemma_suffix_cancel(pa22, pb22, pair_text(a.drill_size));
        lemma_suffix_cancel(pa21, pb21, "\"\ndrill_size = "@);
        lemma_suffix_cancel(pa20, pb20, a.drill_shape.label_text());
        lemma_suffix_cancel(pa19, pb19, "\ndrill_shape = \""@);
        lemma_suffix_cancel(pa18, pb18, fixed6_text(a.roundness));
        lemma_suffix_cancel(pa17, pb17, "\nroundness = "@);
        lemma_suffix_cancel(pa16, pb16, fixed6_text(a.rotation));
        lemma_suffix_cancel(pa15, pb15, "\nrotation = "@);
        lemma_suffix_cancel(pa14, pb14, pair_text(a.size));
        lemma_suffix_cancel(pa13, pb13, "\"\nsize = "@);
        lemma_suffix_cancel(pa12, pb12, a.shape.label_text());
        lemma_suffix_cancel(pa11, pb11, "\"\nshape = \""@);
        lemma_suffix_cancel(pa10, pb10, a.pad_type.label_text());
        lemma_suffix_cancel(pa9, pb9, "\npad_type = \""@);
        assert(pa8 == pb8);
        lemma_prefix_cancel(pa8, bool_text(a.has_paste), bool_text(b.has_paste));
        lemma_bool_text_injective(a.has_paste, b.has_paste);
    }
}

/// The pad TOML tells apart two Pad values that differ only in `pad_type`: their
/// texts are equal exactly when those values are.
pub proof fn lemma_pad_text_tracks_pad_type(a: Pad, b: Pad)
    requires
        a.wf(),
        b.wf(),
        a.position.0 == b.position.0,
        a.position.1 == b.position.1,
        a.is_flipped == b.is_flipped,
        a.has_model == b.has_model,
        a.is_tht_or_smd == b.is_tht_or_smd,
        a.has_paste == b.has_paste,
        a.shape == b.shape,
        a.size.0 == b.size.0,
        a.size.1 == b.size.1,
        a.rotation == b.rotation,
        a.roundness == b.roundness,
        a.drill_shape == b.drill_shape,
        a.drill_size.0 == b.drill_size.0,
        a.drill_size.1 == b.drill_size.1,
        a.fab_type == b.fab_type,
    ensures
        (pad_toml(a) == pad_toml(b)) <==> (a.pad_type == b.pad_type),
{
    if pad_toml(a) == pad_toml(b) {
        let pa0 = "position = "@;
        let pa1 = pa0 + pair_text(a.position);
        let pa2 = pa1 + "\nis_flipped = "@;
        let pa3 = pa2 + bool_text(a.is_flipped);
        let pa4 = pa3 + "\nhas_model = "@;
        let pa5 = pa4 + bool_text(a.has_model);
        let pa6 = pa5 + "\nis_tht_or_smd = "@;
        let pa7 = pa6 + bool_text(a.is_tht_or_smd);
        let pa8 = pa7 + "\nhas_paste = "@;
        let pa9 = pa8 + bool_text(a.has_paste);
        let pa10 = pa9 + "\npad_type = \""@;
        let pa11 = pa10 + a.pad_type.label_text();
        let pa12 = pa11 + "\"\nshape = \""@;
        let pa13 = pa12 + a.shape.label_text();
        let pa14 = pa13 + "\"\nsize = "@;
        let pa15 = pa14 + pair_text(a.size);
        let pa16 = pa15 + "\nrotation = "@;
        let pa17 = pa16 + fixed6_text(a.rotation);
        let pa18 = pa17 + "\nroundness = "@;
        let pa19 = pa18 + fixed6_text(a.roundness);
        let pa20 = pa19 + "\ndrill_shape = \""@;
        let pa21 = pa20 + a.drill_shape.label_text();
        let pa22 = pa21 + "\"\ndrill_size = "@;
        let pa23 = pa22 + pair_text(a.drill_size);
        let pa24 = pa23 + "\nfab_type = \""@;
        let pa25 = pa24 + a.fab_type.label_text();
        let pa26 = pa25 + "\""@;
        let pb0 = "position = "@;
        let pb1 = pb0 + pair_text(b.position);
        let pb2 = pb1 + "\nis_flipped = "@;
        let pb3 = pb2 + bool_text(b.is_flipped);
        let pb4 = pb3 + "\nhas_model = "@;
        let pb5 = pb4 + bool_text(b.has_model);
        let pb6 = pb5 + "\nis_tht_or_smd = "@;
        let pb7 = pb6 + bool_text(b.is_tht_or_smd);
        let pb8 = pb7 + "\nhas_paste = "@;
        let pb9 = pb8 + bool_text(b.has_paste);
        let pb10 = pb9 + "\npad_type = \""@;
        let pb11 = pb10 + b.pad_type.label_text();
        let pb12 = pb11 + "\"\nshape = \""@;
        let pb13 = pb12 + b.shape.label_text();
        let pb14 = pb13 + "\"\nsize = "@;
        let pb15 = pb14 + pair_text(b.size);
        let pb16 = pb15 + "\nrotation = "@;
        let pb17 = pb16 + fixed6_text(b.rotation);
        let pb18 = pb17 + "\nroundness = "@;
        let pb19 = pb18 + fixed6_text(b.roundness);
        let pb20 = pb19 + "\ndrill_shape = \""@;
        let pb21 = pb20 + b.drill_shape.label_text();
        let pb22 = pb21 + "\"\ndrill_size = "@;
        let pb23 = pb22 + pair_text(b.drill_size);
        let pb24 = pb23 + "\nfab_type = \""@;
        let pb25 = pb24 + b.fab_type.label_text();
        let pb26 = pb25 + "\""@;
        assert(pad_toml(a) == pa26);
        assert(pad_toml(b) == pb26);
        lemma_suffix_cancel(pa25, pb25, "\""@);
        lemma_suffix_cancel(pa24, pb24, a.fab_type.label_text());
        lemma_suffix_cancel(pa23, pb23, "\nfab_type = \""@);
        lemma_suffix_cancel(pa22, pb22, pair_text(a.drill_size));
        lemma_suffix_cancel(pa21, pb21, "\"\ndrill_size = "@);
        lemma_suffix_cancel(pa20, pb20, a.drill_shape.label_text());
        lemma_suffix_cancel(pa19, pb19, "\ndrill_shape = \""@);
        lemma_suffix_cancel(pa18, pb18, fixed6_text(a.roundness));
        lemma_suffix_cancel(pa17, pb17, "\nroundness = "@);
        lemma_suffix_cancel(pa16, pb16, fixed6_text(a.rotation));
        lemma_suffix_cancel(pa15, pb15, "\nrotation = "@);
        lemma_suffix_cancel(pa14, pb14, pair_text(a.size));
        lemma_suffix_cancel(pa13, pb13, "\"\nsize = "@);
        lemma_suffix_cancel(pa12, pb12, a.shape.label_text());
        lemma_suffix_cancel(pa11, pb11, "\"\nshape = \""@);
        assert(pa10 == pb10);
        lemma_prefix_cancel(pa10, a.pad_type.label_text(), b.pad_type.label_text());
        lemma_pad_type_label_injective(a.pad_type, b.pad_type);
    }
}

/// The pad TOML tells apart two Pad values that differ only in `shape`: their
/// texts are equal exactly when those values are.
pub proof fn lemma_pad_text_tracks_shape(a: Pad, b: Pad)
    requires
        a.wf(),
        b.wf(),
        a.position.0 == b.position.0,
        a.position.1 == b.position.1,
        a.is_flipped == b.is_flipped,
        a.has_model == b.has_model,
        a.is_tht_or_smd == b.is_tht_or_smd,
        a.has_paste == b.has_paste,
        a.pad_type == b.pad_type,
        a.size.0 == b.size.0,
        a.size.1 == b.size.1,
        a.rotation == b.rotation,
        a.roundness == b.roundness,
        a.drill_shape == b.drill_shape,
        a.drill_size.0 == b.drill_size.0,
        a.drill_size.1 == b.drill_size.1,
        a.fab_type == b.fab_type,
    ensures
        (pad_toml(a) == pad_toml(b)) <==> (a.shape == b.shape),
{
    if pad_toml(a) == pad_toml(b) {
        let pa0 = "position = "@;
        let pa1 = pa0 + pair_text(a.position);
        let pa2 = pa1 + "\nis_flipped = "@;
        let pa3 = pa2 + bool_text(a.is_flipped);
        let pa4 = pa3 + "\nhas_model = "@;
        let pa5 = pa4 + bool_text(a.has_model);
        let pa6 = pa5 + "\nis_tht_or_smd = "@;
        let pa7 = pa6 + bool_text(a.is_tht_or_smd);
        let pa8 = pa7 + "\nhas_paste = "@;
        let pa9 = pa8 + bool_text(a.has_paste);
        let pa10 = pa9 + "\npad_type = \""@;
        let pa11 = pa10 + a.pad_type.label_text();
        let pa12 = pa11 + "\"\nshape = \""@;
        let pa13 = pa12 + a.shape.label_text();
        let pa14 = pa13 + "\"\nsize = "@;
        let pa15 = pa14 + pair_text(a.size);
        let pa16 = pa15 + "\nrotation = "@;
        let pa17 = pa16 + fixed6_text(a.rotation);
        let pa18 = pa17 + "\nroundness = "@;
        let pa19 = pa18 + fixed6_text(a.roundness);
        let pa20 = pa19 + "\ndrill_shape = \""@;
        let pa21 = pa20 + a.drill_shape.label_text();
        let pa22 = pa21 + "\"\ndrill_size = "@;
        let pa23 = pa22 + pair_text(a.drill_size);
        let pa24 = pa23 + "\nfab_type = \""@;
        let pa25 = pa24 + a.fab_type.label_text();
        let pa26 = pa25 + "\""@;
        let pb0 = "position = "@;
        let pb1 = pb0 + pair_text(b.position);
        let pb2 = pb1 + "\nis_flipped = "@;
        let pb3 = pb2 + bool_text(b.is_flipped);
        let pb4 = pb3 + "\nhas_model = "@;
        let pb5 = pb4 + bool_text(b.has_model);
        let pb6 = pb5 + "\nis_tht_or_smd = "@;
        let pb7 = pb6 + bool_text(b.is_tht_or_smd);
        let pb8 = pb7 + "\nhas_paste = "@;
        let pb9 = pb8 + bool_text(b.has_paste);
        let pb10 = pb9 + "\npad_type = \""@;
        let pb11 = pb10 + b.pad_type.label_text();
        let pb12 = pb11 + "\"\nshape = \""@;
        let pb13 = pb12 + b.shape.label_text();
        let pb14 = pb13 + "\"\nsize = "@;
        let pb15 = pb14 + pair_text(b.size);
        let pb16 = pb15 + "\nrotation = "@;
        let pb17 = pb16 + fixed6_text(b.rotation);
        let pb18 = pb17 + "\nroundness = "@;
        let pb19 = pb18 + fixed6_text(b.roundness);
        let pb20 = pb19 + "\ndrill_shape = \""@;
        let pb21 = pb20 + b.drill_shape.label_text();
        let pb22 = pb21 + "\"\ndrill_size = "@;
        let pb23 = pb22 + pair_text(b.drill_size);
        let pb24 = pb23 + "\nfab_type = \""@;
        let pb25 = pb24 + b.fab_type.label_text();
        let pb26 = pb25 + "\""@;
        assert(pad_toml(a) == pa26);
        assert(pad_toml(b) == pb26);
        lemma_suffix_cancel(pa25, pb25, "\""@);
        lemma_suffix_cancel(pa24, pb24, a.fab_type.label_text());
        lemma_suffix_cancel(pa23, pb23, "\nfab_type = \""@);
        lemma_suffix_cancel(pa22, pb22, pair_text(a.drill_size));
        lemma_suffix_cancel(pa21, pb21, "\"\ndrill_size = "@);
        lemma_suffix_cancel(pa20, pb20, a.drill_shape.label_text());
        lemma_suffix_cancel(pa19, pb19, "\ndrill_shape = \""@);
        lemma_suffix_cancel(pa18, pb18, fixed6_text(a.roundness));
        lemma_suffix_cancel(pa17, pb17, "\nroundness = "@);
        lemma_suffix_cancel(pa16, pb16, fixed6_text(a.rotation));
        lemma_suffix_cancel(pa15, pb15, "\nrotation = "@);
        lemma_suffix_cancel(pa14, pb14, pair_text(a.size));
        lemma_suffix_cancel(pa13, pb13, "\"\nsize = "@);
        assert(pa12 == pb12);
        lemma_prefix_cancel(pa12, a.shape.label_text(), b.shape.label_text());
        lemma_pad_shape_label_injective(a.shape, b.shape);
    }
}

/// The pad TOML tells apart two Pad values that differ only in `size.0`: their
/// texts are equal exactly when those values are.
pub proof fn lemma_pad_text_tracks_size_0(a: Pad, b: Pad)
    requires
        a.wf(),
        b.wf(),
        a.position.0 == b.position.0,
        a.position.1 == b.position.1,
        a.is_flipped == b.is_flipped,
        a.has_model == b.has_model,
        a.is_tht_or_smd == b.is_tht_or_smd,
        a.has_paste == b.has_paste,
        a.pad_type == b.pad_type,
        a.shape == b.shape,
        a.size.1 == b.size.1,
        a.rotation == b.rotation,
        a.roundness == b.roundness,
        a.drill_shape == b.drill_shape,
        a.drill_size.0 == b.drill_size.0,
        a.drill_size.1 == b.drill_size.1,
        a.fab_type == b.fab_type,
    ensures
        (pad_toml(a) == pad_toml(b)) <==> (a.size.0 == b.size.0),
{
    if pad_toml(a) == pad_toml(b) {
        let pa0 = "position = "@;
        let pa1 = pa0 + pair_text(a.position);
        let pa2 = pa1 + "\nis_flipped = "@;
        let pa3 = pa2 + bool_text(a.is_flipped);
        let pa4 = pa3 + "\nhas_model = "@;
        let pa5 = pa4 + bool_text(a.has_model);
        let pa6 = pa5 + "\nis_tht_or_smd = "@;
        let pa7 = pa6 + bool_text(a.is_tht_or_smd);
        let pa8 = pa7 + "\nhas_paste = "@;
        let pa9 = pa8 + bool_text(a.has_paste);
        let pa10 = pa9 + "\npad_type = \""@;
        let pa11 = pa10 + a.pad_type.label_text();
        let pa12 = pa11 + "\"\nshape = \""@;
        let pa13 = pa12 + a.shape.label_text();
        let pa14 = pa13 + "\"\nsize = "@;
        let pa15 = pa14 + pair_text(a.size);
        let pa16 = pa15 + "\nrotation = "@;
        let pa17 = pa16 + fixed6_text(a.rotation);
        let pa18 = pa17 + "\nroundness = "@;
        let pa19 = pa18 + fixed6_text(a.roundness);
        let pa20 = pa19 + "\ndrill_shape = \""@;
        let pa21 = pa20 + a.drill_shape.label_text();
        let pa22 = pa21 + "\"\ndrill_size = "@;
        let pa23 = pa22 + pair_text(a.drill_size);
        let pa24 = pa23 + "\nfab_type = \""@;
        let pa25 = pa24 + a.fab_type.label_text();
        let pa26 = pa25 + "\""@;
        let pb0 = "position = "@;
        let pb1 = pb0 + pair_text(b.position);
        let pb2 = pb1 + "\nis_flipped = "@;
        let pb3 = pb2 + bool_text(b.is_flipped);
        let pb4 = pb3 + "\nhas_model = "@;
        let pb5 = pb4 + bool_text(b.has_model);
        let pb6 = pb5 + "\nis_tht_or_smd = "@;
        let pb7 = pb6 + bool_text(b.is_tht_or_smd);
        let pb8 = pb7 + "\nhas_paste = "@;
        let pb9 = pb8 + bool_text(b.has_paste);
        let pb10 = pb9 + "\npad_type = \""@;
        let pb11 = pb10 + b.pad_type.label_text();
        let pb12 = pb11 + "\"\nshape = \""@;
        let pb13 = pb12 + b.shape.label_text();
        let pb14 = pb13 + "\"\nsize = "@;
        let pb15 = pb14 + pair_text(b.size);
        let pb16 = pb15 + "\nrotation = "@;
        let pb17 = pb16 + fixed6_text(b.rotation);
        let pb18 = pb17 + "\nroundness = "@;
        let pb19 = pb18 + fixed6_text(b.roundness);
        let pb20 = pb19 + "\ndrill_shape = \""@;
        let pb21 = pb20 + b.drill_shape.label_text();
        let pb22 = pb21 + "\"\ndrill_size = "@;
        let pb23 = pb22 + pair_text(b.drill_size);
        let pb24 = pb23 + "\nfab_type = \""@;
        let pb25 = pb24 + b.fab_type.label_text();
        let pb26 = pb25 + "\""@;
        assert(pad_toml(a) == pa26);
        assert(pad_toml(b) == pb26);
        lemma_suffix_cancel(pa25, pb25, "\""@);
        lemma_suffix_cancel(pa24, pb24, a.fab_type.label_text());
        lemma_suffix_cancel(pa23, pb23, "\nfab_type = \""@);
        lemma_suffix_cancel(pa22, pb22, pair_text(a.drill_size));
        lemma_suffix_cancel(pa21, pb21, "\"\ndrill_size = "@);
        lemma_suffix_cancel(pa20, pb20, a.drill_shape.label_text());
        lemma_suffix_cancel(pa19, pb19, "\ndrill_shape = \""@);
        lemma_suffix_cancel(pa18, pb18, fixed6_text(a.roundness));
        lemma_suffix_cancel(pa17, pb17, "\nroundness = "@);
        lemma_suffix_cancel(pa16, pb16, fixed6_text(a.rotation));
        lemma_suffix_cancel(pa15, pb15, "\nrotation = "@);
        assert(pa14 == pb14);
        lemma_prefix_cancel(pa14, pair_text(a.size), pair_text(b.size));
        lemma_pair_text_component(a.size, b.size);
    }
}

/// The pad TOML tells apart two Pad values that differ only in `size.1`: their
/// texts are equal exactly when those values are.
pub proof fn lemma_pad_text_tracks_size_1(a: Pad, b: Pad)
    requires
        a.wf(),
        b.wf(),
        a.position.0 == b.position.0,
        a.position.1 == b.position.1,
        a.is_flipped == b.is_flipped,
        a.has_model == b.has_model,
        a.is_tht_or_smd == b.is_tht_or_smd,
        a.has_paste == b.has_paste,
        a.pad_type == b.pad_type,
        a.shape == b.shape,
        a.size.0 == b.size.0,
        a.rotation == b.rotation,
        a.roundness == b.roundness,
        a.drill_shape == b.drill_shape,
        a.drill_size.0 == b.drill_size.0,
        a.drill_size.1 == b.drill_size.1,
        a.fab_type == b.fab_type,
    ensures
        (pad_toml(a) == pad_toml(b)) <==> (a.size.1 == b.size.1),
{
    if pad_toml(a) == pad_toml(b) {
        let pa0 = "position = "@;
        let pa1 = pa0 + pair_text(a.position);
        let pa2 = pa1 + "\nis_flipped = "@;
        let pa3 = pa2 + bool_text(a.is_flipped);
        let pa4 = pa3 + "\nhas_model = "@;
        let pa5 = pa4 + bool_text(a.has_model);
        let pa6 = pa5 + "\nis_tht_or_smd = "@;
        let pa7 = pa6 + bool_text(a.is_tht_or_smd);
        let pa8 = pa7 + "\nhas_paste = "@;
        let pa9 = pa8 + bool_text(a.has_paste);
        let pa10 = pa9 + "\npad_type = \""@;
        let pa11 = pa10 + a.pad_type.label_text();
        let pa12 = pa11 + "\"\nshape = \""@;
        let pa13 = pa12 + a.shape.label_text();
        let pa14 = pa13 + "\"\nsize = "@;
        let pa15 = pa14 + pair_text(a.size);
        let pa16 = pa15 + "\nrotation = "@;
        let pa17 = pa16 + fixed6_text(a.rotation);
        let pa18 = pa17 + "\nroundness = "@;
        let pa19 = pa18 + fixed6_text(a.roundness);
        let pa20 = pa19 + "\ndrill_shape = \""@;
        let pa21 = pa20 + a.drill_shape.label_text();
        let pa22 = pa21 + "\"\ndrill_size = "@;
        let pa23 = pa22 + pair_text(a.drill_size);
        let pa24 = pa23 + "\nfab_type = \""@;
        let pa25 = pa24 + a.fab_type.label_text();
        let pa26 = pa25 + "\""@;
        let pb0 = "position = "@;
        let pb1 = pb0 + pair_text(b.position);
        let pb2 = pb1 + "\nis_flipped = "@;
        let pb3 = pb2 + bool_text(b.is_flipped);
        let pb4 = pb3 + "\nhas_model = "@;
        let pb5 = pb4 + bool_text(b.has_model);
        let pb6 = pb5 + "\nis_tht_or_smd = "@;
        let pb7 = pb6 + bool_text(b.is_tht_or_smd);
        let pb8 = pb7 + "\nhas_paste = "@;
        let pb9 = pb8 + bool_text(b.has_paste);
        let pb10 = pb9 + "\npad_type = \""@;
        let pb11 = pb10 + b.pad_type.label_text();
        let pb12 = pb11 + "\"\nshape = \""@;
        let pb13 = pb12 + b.shape.label_text();
        let pb14 = pb13 + "\"\nsize = "@;
        let pb15 = pb14 + pair_text(b.size);
        let pb16 = pb15 + "\nrotation = "@;
        let pb17 = pb16 + fixed6_text(b.rotation);
        let pb18 = pb17 + "\nroundness = "@;
        let pb19 = pb18 + fixed6_text(b.roundness);
        let pb20 = pb19 + "\ndrill_shape = \""@;
        let pb21 = pb20 + b.drill_shape.label_text();
        let pb22 = pb21 + "\"\ndrill_size = "@;
        let pb23 = pb22 + pair_text(b.drill_size);
        let pb24 = pb23 + "\nfab_type = \""@;
        let pb25 = pb24 + b.fab_type.label_text();
        let pb26 = pb25 + "\""@;
        assert(pad_toml(a) == pa26);
        assert(pad_toml(b) == pb26);
        lemma_suffix_cancel(pa25, pb25, "\""@);
        lemma_suffix_cancel(pa24, pb24, a.fab_type.label_text());
        lemma_suffix_cancel(pa23, pb23, "\nfab_type = \""@);
        lemma_suffix_cancel(pa22, pb22, pair_text(a.drill_size));
        lemma_suffix_cancel(pa21, pb21, "\"\ndrill_size = "@);
        lemma_suffix_cancel(pa20, pb20, a.drill_shape.label_text());
        lemma_suffix_cancel(pa19, pb19, "\ndrill_shape = \""@);
        lemma_suffix_cancel(pa18, pb18, fixed6_text(a.roundness));
        lemma_suffix_cancel(pa17, pb17, "\nroundness = "@);
        lemma_suffix_cancel(pa16, pb16, fixed6_text(a.rotation));
        lemma_suffix_cancel(pa15, pb15, "\nrotation = "@);
        assert(pa14 == pb14);
        lemma_prefix_cancel(pa14, pair_text(a.size), pair_text(b.size));
        lemma_pair_text_component(a.size, b.size);
    }
}

/// The pad TOML tells apart two Pad values that differ only in `rotation`: their
/// texts are equal exactly when those values are.
pub proof fn lemma_pad_text_tracks_rotation(a: Pad, b: Pad)
    requires
        a.wf(),
        b.wf(),
        a.position.0 == b.position.0,
        a.position.1 == b.position.1,
        a.is_flipped == b.is_flipped,
        a.has_model == b.has_model,
        a.is_tht_or_smd == b.is_tht_or_smd,
        a.has_paste == b.has_paste,
        a.pad_type == b.pad_type,
        a.shape == b.shape,
        a.size.0 == b.size.0,
        a.size.1 == b.size.1,
        a.roundness == b.roundness,
        a.drill_shape == b.drill_shape,
        a.drill_size.0 == b.drill_size.0,
        a.drill_size.1 == b.drill_size.1,
        a.fab_type == b.fab_type,
    ensures
        (pad_toml(a) == pad_toml(b)) <==> (a.rotation == b.rotation),
{
    if pad_toml(a) == pad_toml(b) {
        let pa0 = "position = "@;
        let pa1 = pa0 + pair_text(a.position);
        let pa2 = pa1 + "\nis_flipped = "@;
        let pa3 = pa2 + bool_text(a.is_flipped);
        let pa4 = pa3 + "\nhas_model = "@;
        let pa5 = pa4 + bool_text(a.has_model);
        let pa6 = pa5 + "\nis_tht_or_smd = "@;
        let pa7 = pa6 + bool_text(a.is_tht_or_smd);
        let pa8 = pa7 + "\nhas_paste = "@;
        let pa9 = pa8 + bool_text(a.has_paste);
        let pa10 = pa9 + "\npad_type = \""@;
        let pa11 = pa10 + a.pad_type.label_text();
        let pa12 = pa11 + "\"\nshape = \""@;
        let pa13 = pa12 + a.shape.label_text();
        let pa14 = pa13 + "\"\nsize = "@;
        let pa15 = pa14 + pair_text(a.size);
        let pa16 = pa15 + "\nrotation = "@;
        let pa17 = pa16 + fixed6_text(a.rotation);
        let pa18 = pa17 + "\nroundness = "@;
        let pa19 = pa18 + fixed6_text(a.roundness);
        let pa20 = pa19 + "\ndrill_shape = \""@;
        let pa21 = pa20 + a.drill_shape.label_text();
        let pa22 = pa21 + "\"\ndrill_size = "@;
        let pa23 = pa22 + pair_text(a.drill_size);
        let pa24 = pa23 + "\nfab_type = \""@;
        let pa25 = pa24 + a.fab_type.label_text();
        let pa26 = pa25 + "\""@;
        let pb0 = "position = "@;
        let pb1 = pb0 + pair_text(b.position);
        let pb2 = pb1 + "\nis_flipped = "@;
        let pb3 = pb2 + bool_text(b.is_flipped);
        let pb4 = pb3 + "\nhas_model = "@;
        let pb5 = pb4 + bool_text(b.has_model);
        let pb6 = pb5 + "\nis_tht_or_smd = "@;
        let pb7 = pb6 + bool_text(b.is_tht_or_smd);
        let pb8 = pb7 + "\nhas_paste = "@;
        let pb9 = pb8 + bool_text(b.has_paste);
        let pb10 = pb9 + "\npad_type = \""@;
        let pb11 = pb10 + b.pad_type.label_text();
        let pb12 = pb11 + "\"\nshape = \""@;
        let pb13 = pb12 + b.shape.label_text();
        let pb14 = pb13 + "\"\nsize = "@;
        let pb15 = pb14 + pair_text(b.size);
        let pb16 = pb15 + "\nrotation = "@;
        let pb17 = pb16 + fixed6_text(b.rotation);
        let pb18 = pb17 + "\nroundness = "@;
        let pb19 = pb18 + fixed6_text(b.roundness);
        let pb20 = pb19 + "\ndrill_shape = \""@;
        let pb21 = pb20 + b.drill_shape.label_text();
        let pb22 = pb21 + "\"\ndrill_size = "@;
        let pb23 = pb22 + pair_text(b.drill_size);
        let pb24 = pb23 + "\nfab_type = \""@;
        let pb25 = pb24 + b.fab_type.label_text();
        let pb26 = pb25 + "\""@;
        assert(pad_toml(a) == pa26);
        assert(pad_toml(b) == pb26);
        lemma_suffix_cancel(pa25, pb25, "\""@);
        lemma_suffix_cancel(pa24, pb24, a.fab_type.label_text());
        lemma_suffix_cancel(pa23, pb23, "\nfab_type = \""@);
        lemma_suffix_cancel(pa22, pb22, pair_text(a.drill_size));
        lemma_suffix_cancel(pa21, pb21, "\"\ndrill_size = "@);
        lemma_suffix_cancel(pa20, pb20, a.drill_shape.label_text());
        lemma_suffix_cancel(pa19, pb19, "\ndrill_shape = \""@);
        lemma_suffix_cancel(pa18, pb18, fixed6_text(a.roundness));
        lemma_suffix_cancel(pa17, pb17, "\nroundness = "@);
        assert(pa16 == pb16);
        lemma_prefix_cancel(pa16, fixed6_text(a.rotation), fixed6_text(b.rotation));
        lemma_fixed6_text_injective(a.rotation, b.rotation);
    }
}

/// The pad TOML tells apart two Pad values that differ only in `roundness`: their
/// texts are equal exactly when those values are.
pub proof fn lemma_pad_text_tracks_roundness(a: Pad, b: Pad)
    requires
        a.wf(),
        b.wf(),
        a.position.0 == b.position.0,
        a.position.1 == b.position.1,
        a.is_flipped == b.is_flipped,
        a.has_model == b.has_model,
        a.is_tht_or_smd == b.is_tht_or_smd,
        a.has_paste == b.has_paste,
        a.pad_type == b.pad_type,
        a.shape == b.shape,
        a.size.0 == b.size.0,
        a.size.1 == b.size.1,
        a.rotation == b.rotation,
        a.drill_shape == b.drill_shape,
        a.drill_size.0 == b.drill_size.0,
        a.drill_size.1 == b.drill_size.1,
        a.fab_type == b.fab_type,
    ensures
        (pad_toml(a) == pad_toml(b)) <==> (a.roundness == b.roundness),
{
    if pad_toml(a) == pad_toml(b) {
        let pa0 = "position = "@;
        let pa1 = pa0 + pair_text(a.position);
        let pa2 = pa1 + "\nis_flipped = "@;
        let pa3 = pa2 + bool_text(a.is_flipped);
        let pa4 = pa3 + "\nhas_model = "@;
        let pa5 = pa4 + bool_text(a.has_model);
        let pa6 = pa5 + "\nis_tht_or_smd = "@;
        let pa7 = pa6 + bool_text(a.is_tht_or_smd);
        let pa8 = pa7 + "\nhas_paste = "@;
        let pa9 = pa8 + bool_text(a.has_paste);
        let pa10 = pa9 + "\npad_type = \""@;
        let pa11 = pa10 + a.pad_type.label_text();
        let pa12 = pa11 + "\"\nshape = \""@;
        let pa13 = pa12 + a.shape.label_text();
        let pa14 = pa13 + "\"\nsize = "@;
        let pa15 = pa14 + pair_text(a.size);
        let pa16 = pa15 + "\nrotation = "@;
        let pa17 = pa16 + fixed6_text(a.rotation);
        let pa18 = pa17 + "\nroundness = "@;
        let pa19 = pa18 + fixed6_text(a.roundness);
        let pa20 = pa19 + "\ndrill_shape = \""@;
        let pa21 = pa20 + a.drill_shape.label_text();
        let pa22 = pa21 + "\"\ndrill_size = "@;
        let pa23 = pa22 + pair_text(a.drill_size);
        let pa24 = pa23 + "\nfab_type = \""@;
        let pa25 = pa24 + a.fab_type.label_text();
        let pa26 = pa25 + "\""@;
        let pb0 = "position = "@;
        let pb1 = pb0 + pair_text(b.position);
        let pb2 = pb1 + "\nis_flipped = "@;
        let pb3 = pb2 + bool_text(b.is_flipped);
        let pb4 = pb3 + "\nhas_model = "@;
        let pb5 = pb4 + bool_text(b.has_model);
        let pb6 = pb5 + "\nis_tht_or_smd = "@;
        let pb7 = pb6 + bool_text(b.is_tht_or_smd);
        let pb8 = pb7 + "\nhas_paste = "@;
        let pb9 = pb8 + bool_text(b.has_paste);
        let pb10 = pb9 + "\npad_type = \""@;
        let pb11 = pb10 + b.pad_type.label_text();
        let pb12 = pb11 + "\"\nshape = \""@;
        let pb13 = pb12 + b.shape.label_text();
        let pb14 = pb13 + "\"\nsize = "@;
        let pb15 = pb14 + pair_text(b.size);
        let pb16 = pb15 + "\nrotation = "@;
        let pb17 = pb16 + fixed6_text(b.rotation);
        let pb18 = pb17 + "\nroundness = "@;
        let pb19 = pb18 + fixed6_text(b.roundness);
        let pb20 = pb19 + "\ndrill_shape = \""@;
        let pb21 = pb20 + b.drill_shape.label_text();
        let pb22 = pb21 + "\"\ndrill_size = "@;
        let pb23 = pb22 + pair_text(b.drill_size);
        let pb24 = pb23 + "\nfab_type = \""@;
        let pb25 = pb24 + b.fab_type.label_text();
        let pb26 = pb25 + "\""@;
        assert(pad_toml(a) == pa26);
        assert(pad_toml(b) == pb26);
        lemma_suffix_cancel(pa25, pb25, "\""@);
        lemma_suffix_cancel(pa24, pb24, a.fab_type.label_text());
        lemma_suffix_cancel(pa23, pb23, "\nfab_type = \""@);
        lemma_suffix_cancel(pa22, pb22, pair_text(a.drill_size));
        lemma_suffix_cancel(pa21, pb21, "\"\ndrill_size = "@);
        lemma_suffix_cancel(pa20, pb20, a.drill_shape.label_text());
        lemma_suffix_cancel(pa19, pb19, "\ndrill_shape = \""@);
        assert(pa18 == pb18);
        lemma_prefix_cancel(pa18, fixed6_text(a.roundness), fixed6_text(b.roundness));
        lemma_fixed6_text_injective(a.roundness, b.roundness);
    }
}

/// The pad TOML tells apart two Pad values that differ only in `drill_shape`: their
/// texts are equal exactly when those values are.
pub proof fn lemma_pad_text_tracks_drill_shape(a: Pad, b: Pad)
    requires
        a.wf(),
        b.wf(),
        a.position.0 == b.position.0,
        a.position.1 == b.position.1,
        a.is_flipped == b.is_flipped,
        a.has_model == b.has_model,
        a.is_tht_or_smd == b.is_tht_or_smd,
        a.has_paste == b.has_paste,
        a.pad_type == b.pad_type,
        a.shape == b.shape,
        a.size.0 == b.size.0,
        a.size.1 == b.size.1,
        a.rotation == b.rotation,
        a.roundness == b.roundness,
        a.drill_size.0 == b.drill_size.0,
        a.drill_size.1 == b.drill_size.1,
        a.fab_type == b.fab_type,
    ensures
        (pad_toml(a) == pad_toml(b)) <==> (a.drill_shape == b.drill_shape),
{
    if pad_toml(a) == pad_toml(b) {
        let pa0 = "position = "@;
        let pa1 = pa0 + pair_text(a.position);
        let pa2 = pa1 + "\nis_flipped = "@;
        let pa3 = pa2 + bool_text(a.is_flipped);
        let pa4 = pa3 + "\nhas_model = "@;
        let pa5 = pa4 + bool_text(a.has_model);
        let pa6 = pa5 + "\nis_tht_or_smd = "@;
        let pa7 = pa6 + bool_text(a.is_tht_or_smd);
        let pa8 = pa7 + "\nhas_paste = "@;
        let pa9 = pa8 + bool_text(a.has_paste);
        let pa10 = pa9 + "\npad_type = \""@;
        let pa11 = pa10 + a.pad_type.label_text();
        let pa12 = pa11 + "\"\nshape = \""@;
        let pa13 = pa12 + a.shape.label_text();
        let pa14 = pa13 + "\"\nsize = "@;
        let pa15 = pa14 + pair_text(a.size);
        let pa16 = pa15 + "\nrotation = "@;
        let pa17 = pa16 + fixed6_text(a.rotation);
        let pa18 = pa17 + "\nroundness = "@;
        let pa19 = pa18 + fixed6_text(a.roundness);
        let pa20 = pa19 + "\ndrill_shape = \""@;
        let pa21 = pa20 + a.drill_shape.label_text();
        let pa22 = pa21 + "\"\ndrill_size = "@;
        let pa23 = pa22 + pair_text(a.drill_size);
        let pa24 = pa23 + "\nfab_type = \""@;
        let pa25 = pa24 + a.fab_type.label_text();
        let pa26 = pa25 + "\""@;
        let pb0 = "position = "@;
        let pb1 = pb0 + pair_text(b.position);
        let pb2 = pb1 + "\nis_flipped = "@;
        let pb3 = pb2 + bool_text(b.is_flipped);
        let pb4 = pb3 + "\nhas_model = "@;
        let pb5 = pb4 + bool_text(b.has_model);
        let pb6 = pb5 + "\nis_tht_or_smd = "@;
        let pb7 = pb6 + bool_text(b.is_tht_or_smd);
        let pb8 = pb7 + "\nhas_paste = "@;
        let pb9 = pb8 + bool_text(b.has_paste);
        let pb10 = pb9 + "\npad_type = \""@;
        let pb11 = pb10 + b.pad_type.label_text();
        let pb12 = pb11 + "\"\nshape = \""@;
        let pb13 = pb12 + b.shape.label_text();
        let pb14 = pb13 + "\"\nsize = "@;
        let pb15 = pb14 + pair_text(b.size);
        let pb16 = pb15 + "\nrotation = "@;
        let pb17 = pb16 + fixed6_text(b.rotation);
        let pb18 = pb17 + "\nroundness = "@;
        let pb19 = pb18 + fixed6_text(b.roundness);
        let pb20 = pb19 + "\ndrill_shape = \""@;
        let pb21 = pb20 + b.drill_shape.label_text();
        let pb22 = pb21 + "\"\ndrill_size = "@;
        let pb23 = pb22 + pair_text(b.drill_size);
        let pb24 = pb23 + "\nfab_type = \""@;
        let pb25 = pb24 + b.fab_type.label_text();
        let pb26 = pb25 + "\""@;
        assert(pad_toml(a) == pa26);
        assert(pad_toml(b) == pb26);
        lemma_suffix_cancel(pa25, pb25, "\""@);
        lemma_suffix_cancel(pa24, pb24, a.fab_type.label_text());
        lemma_suffix_cancel(pa23, pb23, "\nfab_type = \""@);
        lemma_suffix_cancel(pa22, pb22, pair_text(a.drill_size));
        lemma_suffix_cancel(pa21, pb21, "\"\ndrill_size = "@);
        assert(pa20 == pb20);
        lemma_prefix_cancel(pa20, a.drill_shape.label_text(), b.drill_shape.label_text());
        lemma_drill_shape_label_injective(a.drill_shape, b.drill_shape);
    }
}

/// The pad TOML tells apart two Pad values that differ only in `drill_size.0`: their
/// texts are equal exactly when those values are.
pub proof fn lemma_pad_text_tracks_drill_size_0(a: Pad, b: Pad)
    requires
        a.wf(),
        b.wf(),
        a.position.0 == b.position.0,
        a.position.1 == b.position.1,
        a.is_flipped == b.is_flipped,
        a.has_model == b.has_model,
        a.is_tht_or_smd == b.is_tht_or_smd,
        a.has_paste == b.has_paste,
        a.pad_type == b.pad_type,
        a.shape == b.shape,
        a.size.0 == b.size.0,
        a.size.1 == b.size.1,
        a.rotation == b.rotation,
        a.roundness == b.roundness,
        a.drill_shape == b.drill_shape,
        a.drill_size.1 == b.drill_size.1,
        a.fab_type == b.fab_type,
    ensures
        (pad_toml(a) == pad_toml(b)) <==> (a.drill_size.0 == b.drill_size.0),
{
    if pad_toml(a) == pad_toml(b) {
        let pa0 = "position = "@;
        let pa1 = pa0 + pair_text(a.position);
        let pa2 = pa1 + "\nis_flipped = "@;
        let pa3 = pa2 + bool_text(a.is_flipped);
        let pa4 = pa3 + "\nhas_model = "@;
        let pa5 = pa4 + bool_text(a.has_model);
        let pa6 = pa5 + "\nis_tht_or_smd = "@;
        let pa7 = pa6 + bool_text(a.is_tht_or_smd);
        let pa8 = pa7 + "\nhas_paste = "@;
        let pa9 = pa8 + bool_text(a.has_paste);
        let pa10 = pa9 + "\npad_type = \""@;
        let pa11 = pa10 + a.pad_type.label_text();
        let pa12 = pa11 + "\"\nshape = \""@;
        let pa13 = pa12 + a.shape.label_text();
        let pa14 = pa13 + "\"\nsize = "@;
        let pa15 = pa14 + pair_text(a.size);
        let pa16 = pa15 + "\nrotation = "@;
        let pa17 = pa16 + fixed6_text(a.rotation);
        let pa18 = pa17 + "\nroundness = "@;
        let pa19 = pa18 + fixed6_text(a.roundness);
        let pa20 = pa19 + "\ndrill_shape = \""@;
        let pa21 = pa20 + a.drill_shape.label_text();
        let pa22 = pa21 + "\"\ndrill_size = "@;
        let pa23 = pa22 + pair_text(a.drill_size);
        let pa24 = pa23 + "\nfab_type = \""@;
        let pa25 = pa24 + a.fab_type.label_text();
        let pa26 = pa25 + "\""@;
        let pb0 = "position = "@;
        let pb1 = pb0 + pair_text(b.position);
        let pb2 = pb1 + "\nis_flipped = "@;
        let pb3 = pb2 + bool_text(b.is_flipped);
        let pb4 = pb3 + "\nhas_model = "@;
        let pb5 = pb4 + bool_text(b.has_model);
        let pb6 = pb5 + "\nis_tht_or_smd = "@;
        let pb7 = pb6 + bool_text(b.is_tht_or_smd);
        let pb8 = pb7 + "\nhas_paste = "@;
        let pb9 = pb8 + bool_text(b.has_paste);
        let pb10 = pb9 + "\npad_type = \""@;
        let pb11 = pb10 + b.pad_type.label_text();
        let pb12 = pb11 + "\"\nshape = \""@;
        let pb13 = pb12 + b.shape.label_text();
        let pb14 = pb13 + "\"\nsize = "@;
        let pb15 = pb14 + pair_text(b.size);
        let pb16 = pb15 + "\nrotation = "@;
        let pb17 = pb16 + fixed6_text(b.rotation);
        let pb18 = pb17 + "\nroundness = "@;
        let pb19 = pb18 + fixed6_text(b.roundness);
        let pb20 = pb19 + "\ndrill_shape = \""@;
        let pb21 = pb20 + b.drill_shape.label_text();
        let pb22 = pb21 + "\"\ndrill_size = "@;
        let pb23 = pb22 + pair_text(b.drill_size);
        let pb24 = pb23 + "\nfab_type = \""@;
        let pb25 = pb24 + b.fab_type.label_text();
        let pb26 = pb25 + "\""@;
        assert(pad_toml(a) == pa26);
        assert(pad_toml(b) == pb26);
        lemma_suffix_cancel(pa25, pb25, "\""@);
        lemma_suffix_cancel(pa24, pb24, a.fab_type.label_text());
        lemma_suffix_cancel(pa23, pb23, "\nfab_type = \""@);
        assert(pa22 == pb22);
        lemma_prefix_cancel(pa22, pair_text(a.drill_size), pair_text(b.drill_size));
        lemma_pair_text_component(a.drill_size, b.drill_size);
    }
}

/// The pad TOML tells apart two Pad values that differ only in `drill_size.1`: their
/// texts are equal exactly when those values are.
pub proof fn lemma_pad_text_tracks_drill_size_1(a: Pad, b: Pad)
    requires
        a.wf(),
        b.wf(),
        a.position.0 == b.position.0,
        a.position.1 == b.position.1,
        a.is_flipped == b.is_flipped,
        a.has_model == b.has_model,
        a.is_tht_or_smd == b.is_tht_or_smd,
        a.has_paste == b.has_paste,
        a.pad_type == b.pad_type,
        a.shape == b.shape,
        a.size.0 == b.size.0,
        a.size.1 == b.size.1,
        a.rotation == b.rotation,
        a.roundness == b.roundness,
        a.drill_shape == b.drill_shape,
        a.drill_size.0 == b.drill_size.0,
        a.fab_type == b.fab_type,
    ensures
        (pad_toml(a) == pad_toml(b)) <==> (a.drill_size.1 == b.drill_size.1),
{
    if pad_toml(a) == pad_toml(b) {
        let pa0 = "position = "@;
        let pa1 = pa0 + pair_text(a.position);
        let pa2 = pa1 + "\nis_flipped = "@;
        let pa3 = pa2 + bool_text(a.is_flipped);
        let pa4 = pa3 + "\nhas_model = "@;
        let pa5 = pa4 + bool_text(a.has_model);
        let pa6 = pa5 + "\nis_tht_or_smd = "@;
        let pa7 = pa6 + bool_text(a.is_tht_or_smd);
        let pa8 = pa7 + "\nhas_paste = "@;
        let pa9 = pa8 + bool_text(a.has_paste);
        let pa10 = pa9 + "\npad_type = \""@;
        let pa11 = pa10 + a.pad_type.label_text();
        let pa12 = pa11 + "\"\nshape = \""@;
        let pa13 = pa12 + a.shape.label_text();
        let pa14 = pa13 + "\"\nsize = "@;
        let pa15 = pa14 + pair_text(a.size);
        let pa16 = pa15 + "\nrotation = "@;
        let pa17 = pa16 + fixed6_text(a.rotation);
        let pa18 = pa17 + "\nroundness = "@;
        let pa19 = pa18 + fixed6_text(a.roundness);
        let pa20 = pa19 + "\ndrill_shape = \""@;
        let pa21 = pa20 + a.drill_shape.label_text();
        let pa22 = pa21 + "\"\ndrill_size = "@;
        let pa23 = pa22 + pair_text(a.drill_size);
        let pa24 = pa23 + "\nfab_type = \""@;
        let pa25 = pa24 + a.fab_type.label_text();
        let pa26 = pa25 + "\""@;
        let pb0 = "position = "@;
        let pb1 = pb0 + pair_text(b.position);
        let pb2 = pb1 + "\nis_flipped = "@;
        let pb3 = pb2 + bool_text(b.is_flipped);
        let pb4 = pb3 + "\nhas_model = "@;
        let pb5 = pb4 + bool_text(b.has_model);
        let pb6 = pb5 + "\nis_tht_or_smd = "@;
        let pb7 = pb6 + bool_text(b.is_tht_or_smd);
        let pb8 = pb7 + "\nhas_paste = "@;
        let pb9 = pb8 + bool_text(b.has_paste);
        let pb10 = pb9 + "\npad_type = \""@;
        let pb11 = pb10 + b.pad_type.label_text();
        let pb12 = pb11 + "\"\nshape = \""@;
        let pb13 = pb12 + b.shape.label_text();
        let pb14 = pb13 + "\"\nsize = "@;
        let pb15 = pb14 + pair_text(b.size);
        let pb16 = pb15 + "\nrotation = "@;
        let pb17 = pb16 + fixed6_text(b.rotation);
        let pb18 = pb17 + "\nroundness = "@;
        let pb19 = pb18 + fixed6_text(b.roundness);
        let pb20 = pb19 + "\ndrill_shape = \""@;
        let pb21 = pb20 + b.drill_shape.label_text();
        let pb22 = pb21 + "\"\ndrill_size = "@;
        let pb23 = pb22 + pair_text(b.drill_size);
        let pb24 = pb23 + "\nfab_type = \""@;
        let pb25 = pb24 + b.fab_type.label_text();
        let pb26 = pb25 + "\""@;
        assert(pad_toml(a) == pa26);
        assert(pad_toml(b) == pb26);
        lemma_suffix_cancel(pa25, pb25, "\""@);
        lemma_suffix_cancel(pa24, pb24, a.fab_type.label_text());
        lemma_suffix_cancel(pa23, pb23, "\nfab_type = \""@);
        assert(pa22 == pb22);
        lemma_prefix_cancel(pa22, pair_text(a.drill_size), pair_text(b.drill_size));
        lemma_pair_text_component(a.drill_size, b.drill_size);
    }
}

/// The pad TOML tells apart two Pad values that differ only in `fab_type`: their
/// texts are equal exactly when those values are.
pub proof fn lemma_pad_text_tracks_fab_type(a: Pad, b: Pad)
    requires
        a.wf(),
        b.wf(),
        a.position.0 == b.position.0,
        a.position.1 == b.position.1,
        a.is_flipped == b.is_flipped,
        a.has_model == b.has_model,
        a.is_tht_or_smd == b.is_tht_or_smd,
        a.has_paste == b.has_paste,
        a.pad_type == b.pad_type,
        a.shape == b.shape,
        a.size.0 == b.size.0,
        a.size.1 == b.size.1,
        a.rotation == b.rotation,
        a.roundness == b.roundness,
        a.drill_shape == b.drill_shape,
        a.drill_size.0 == b.drill_size.0,
        a.drill_size.1 == b.drill_size.1,
    ensures
        (pad_toml(a) == pad_toml(b)) <==> (a.fab_type == b.fab_type),
{
    if pad_toml(a) == pad_toml(b) {
        let pa0 = "position = "@;
        let pa1 = pa0 + pair_text(a.position);
        let pa2 = pa1 + "\nis_flipped = "@;
        let pa3 = pa2 + bool_text(a.is_flipped);
        let pa4 = pa3 + "\nhas_model = "@;
        let pa5 = pa4 + bool_text(a.has_model);
        let pa6 = pa5 + "\nis_tht_or_smd = "@;
        let pa7 = pa6 + bool_text(a.is_tht_or_smd);
        let pa8 = pa7 + "\nhas_paste = "@;
        let pa9 = pa8 + bool_text(a.has_paste);
        let pa10 = pa9 + "\npad_type = \""@;
        let pa11 = pa10 + a.pad_type.label_text();
        let pa12 = pa11 + "\"\nshape = \""@;
        let pa13 = pa12 + a.shape.label_text();
        let pa14 = pa13 + "\"\nsize = "@;
        let pa15 = pa14 + pair_text(a.size);
        let pa16 = pa15 + "\nrotation = "@;
        let pa17 = pa16 + fixed6_text(a.rotation);
        let pa18 = pa17 + "\nroundness = "@;
        let pa19 = pa18 + fixed6_text(a.roundness);
        let pa20 = pa19 + "\ndrill_shape = \""@;
        let pa21 = pa20 + a.drill_shape.label_text();
        let pa22 = pa21 + "\"\ndrill_size = "@;
        let pa23 = pa22 + pair_text(a.drill_size);
        let pa24 = pa23 + "\nfab_type = \""@;
        let pa25 = pa24 + a.fab_type.label_text();
        let pa26 = pa25 + "\""@;
        let pb0 = "position = "@;
        let pb1 = pb0 + pair_text(b.position);
        let pb2 = pb1 + "\nis_flipped = "@;
        let pb3 = pb2 + bool_text(b.is_flipped);
        let pb4 = pb3 + "\nhas_model = "@;
        let pb5 = pb4 + bool_text(b.has_model);
        let pb6 = pb5 + "\nis_tht_or_smd = "@;
        let pb7 = pb6 + bool_text(b.is_tht_or_smd);
        let pb8 = pb7 + "\nhas_paste = "@;
        let pb9 = pb8 + bool_text(b.has_paste);
        let pb10 = pb9 + "\npad_type = \""@;
        let pb11 = pb10 + b.pad_type.label_text();
        let pb12 = pb11 + "\"\nshape = \""@;
        let pb13 = pb12 + b.shape.label_text();
        let pb14 = pb13 + "\"\nsize = "@;
        let pb15 = pb14 + pair_text(b.size);
        let pb16 = pb15 + "\nrotation = "@;
        let pb17 = pb16 + fixed6_text(b.rotation);
        let pb18 = pb17 + "\nroundness = "@;
        let pb19 = pb18 + fixed6_text(b.roundness);
        let pb20 = pb19 + "\ndrill_shape = \""@;
        let pb21 = pb20 + b.drill_shape.label_text();
        let pb22 = pb21 + "\"\ndrill_size = "@;
        let pb23 = pb22 + pair_text(b.drill_size);
        let pb24 = pb23 + "\nfab_type = \""@;
        let pb25 = pb24 + b.fab_type.label_text();
        let pb26 = pb25 + "\""@;
        assert(pad_toml(a) == pa26);
        assert(pad_toml(b) == pb26);
        lemma_suffix_cancel(pa25, pb25, "\""@);
        assert(pa24 == pb24);
        lemma_prefix_cancel(pa24, a.fab_type.label_text(), b.fab_type.label_text());
        lemma_pad_fab_type_label_injective(a.fab_type, b.fab_type);
    }
}

} // verus!
