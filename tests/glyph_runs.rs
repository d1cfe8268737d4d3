use wrbridge::glyph::{
    Composition, CompositionMethod, GlyphArena, GlyphError, GlyphString, GlyphStringRef, LGString,
    LGlyph, LispObject,
};

fn run(chars: Vec<u32>, cmp: Option<Composition>, cmp_from: usize, cmp_to: usize, next: Option<usize>) -> GlyphString {
    GlyphString { nchars: chars.len(), char2b: chars, cmp, cmp_from, cmp_to, first_glyph: 7, next }
}

fn composed_run(cmp_from: usize, cmp_to: usize, method: CompositionMethod) -> GlyphString {
    let offsets: Vec<i16> = vec![1, 2, 3, 4, 5, 6];
    run(vec![10, 20, 30], Some(Composition { offsets, hash_index: 1, method }), cmp_from, cmp_to, None)
}

#[test]
fn chain_of_three_linked_runs_yields_three_in_link_order() {
    let runs = vec![
        run(vec![1], None, 0, 0, Some(2)),
        run(vec![2], None, 0, 0, Some(3)),
        run(vec![3], None, 0, 0, Some(3)),
        run(vec![4], None, 0, 0, None),
    ];
    let arena = GlyphArena::from_runs(runs).unwrap();
    let mut it = GlyphStringRef { index: 0 }.into_iter();
    let mut seen = Vec::new();
    while let Some(r) = it.next(&arena) {
        seen.push(r.index);
    }
    assert_eq!(seen, vec![0, 2, 3]);
    assert!(it.next(&arena).is_none());
}

#[test]
fn single_run_chain_yields_itself() {
    let arena = GlyphArena::from_runs(vec![run(vec![1, 2], None, 0, 0, None)]).unwrap();
    let mut it = GlyphStringRef { index: 0 }.into_iter();
    assert_eq!(it.next(&arena), Some(GlyphStringRef { index: 0 }));
    assert_eq!(it.next(&arena), None);
}

#[test]
fn arena_refuses_backward_links_and_bad_lengths() {
    let backward = vec![run(vec![1], None, 0, 0, None), run(vec![2], None, 0, 0, Some(0))];
    assert!(GlyphArena::from_runs(backward).is_none());
    let dangling = vec![run(vec![1], None, 0, 0, Some(5))];
    assert!(GlyphArena::from_runs(dangling).is_none());
    let mut short = run(vec![1, 2], None, 0, 0, None);
    short.nchars = 3;
    assert!(GlyphArena::from_runs(vec![short]).is_none());
}

#[test]
fn composite_ranges_are_clamped_to_nchars() {
    let arena = GlyphArena::from_runs(vec![composed_run(1, 1000, CompositionMethod::Relative)]).unwrap();
    let r = GlyphStringRef { index: 0 };
    assert_eq!(r.composite_chars(&arena), &[20, 30]);
    assert_eq!(r.composite_offsets(&arena).unwrap(), &[3, 4, 5, 6]);
    assert_eq!(r.get_chars(&arena), &[10, 20, 30]);
    assert_eq!(r.first_glyph(&arena).index, 7);
}

#[test]
fn composite_ranges_within_bounds() {
    let arena = GlyphArena::from_runs(vec![composed_run(0, 2, CompositionMethod::Relative)]).unwrap();
    let r = GlyphStringRef { index: 0 };
    assert_eq!(r.composite_chars(&arena), &[10, 20]);
    assert_eq!(r.composite_offsets(&arena).unwrap(), &[1, 2, 3, 4]);
}

#[test]
fn composite_offsets_absent_without_composition() {
    let arena = GlyphArena::from_runs(vec![run(vec![1, 2], None, 0, 5, None)]).unwrap();
    assert!(GlyphStringRef { index: 0 }.composite_offsets(&arena).is_none());
}

fn table() -> Vec<LispObject> {
    vec![
        LispObject::Nil,
        LispObject::Nil,
        LispObject::Vector(vec![
            LispObject::Fixnum(100),
            LispObject::Fixnum(101),
            LispObject::Fixnum(102),
            LispObject::Other,
            LispObject::Fixnum(104),
        ]),
        LispObject::Nil,
    ]
}

#[test]
fn composite_glyph_looks_up_through_the_table() {
    let arena = GlyphArena::from_runs(vec![composed_run(1, 3, CompositionMethod::Relative)]).unwrap();
    let r = GlyphStringRef { index: 0 };
    let kv = table();
    assert_eq!(r.composite_glyph(&arena, &kv, 0), Ok(101));
    assert_eq!(r.composite_glyph(&arena, &kv, 1), Ok(102));
    assert_eq!(r.composite_glyph(&arena, &kv, 2), Err(GlyphError::TypeMismatch));
    assert_eq!(r.composite_glyph(&arena, &kv, 9), Err(GlyphError::OutOfRange));
}

#[test]
fn composite_glyph_doubles_index_with_rule_altchars() {
    let arena = GlyphArena::from_runs(vec![composed_run(1, 3, CompositionMethod::WithRuleAltchars)]).unwrap();
    let r = GlyphStringRef { index: 0 };
    let kv = table();
    assert_eq!(r.composite_glyph(&arena, &kv, 0), Ok(102));
    assert_eq!(r.composite_glyph(&arena, &kv, 1), Ok(104));
    assert_eq!(r.composite_glyph(&arena, &kv, 2), Err(GlyphError::OutOfRange));
}

#[test]
fn composite_glyph_rejects_non_vector_slot() {
    let arena = GlyphArena::from_runs(vec![composed_run(0, 3, CompositionMethod::Relative)]).unwrap();
    let kv = vec![LispObject::Nil, LispObject::Nil, LispObject::Fixnum(3)];
    assert_eq!(GlyphStringRef { index: 0 }.composite_glyph(&arena, &kv, 0), Err(GlyphError::TypeMismatch));
}

fn glyph_vector(width: LispObject, adjustment: LispObject) -> LispObject {
    let mut slots: Vec<LispObject> = (0..4).map(|_| LispObject::Nil).collect();
    slots.push(width);
    for _ in 5..9 {
        slots.push(LispObject::Nil);
    }
    slots.push(adjustment);
    LispObject::Vector(slots)
}

#[test]
fn lglyph_width_and_adjustments() {
    let adj = LispObject::Vector(vec![LispObject::Fixnum(-2), LispObject::Fixnum(3), LispObject::Fixnum(5)]);
    let v = glyph_vector(LispObject::Fixnum(12), adj);
    let g = LGlyph::new(Some(&v));
    assert!(!g.is_nil());
    assert_eq!(g.width(), Ok(12));
    assert!(g.has_adjustment());
    assert_eq!(g.x_offset(), Ok(-2));
    assert_eq!(g.y_offset(), Ok(3));
    assert_eq!(g.width_adjustment(), Ok(5));
}

#[test]
fn lglyph_without_adjustment_defaults_to_zero() {
    let v = glyph_vector(LispObject::Fixnum(8), LispObject::Nil);
    let g = LGlyph::new(Some(&v));
    assert!(!g.has_adjustment());
    assert_eq!(g.x_offset(), Ok(0));
    assert_eq!(g.y_offset(), Ok(0));
    assert_eq!(g.width_adjustment(), Ok(0));
}

#[test]
fn lglyph_width_must_be_an_integer() {
    let v = glyph_vector(LispObject::Other, LispObject::Nil);
    assert_eq!(LGlyph::new(Some(&v)).width(), Err(GlyphError::TypeMismatch));
    assert!(LGlyph::new(None).is_nil());
    assert!(LGlyph::new(Some(&LispObject::Nil)).is_nil());
}

#[test]
fn lgstring_steps_until_a_nil_glyph() {
    let g1 = glyph_vector(LispObject::Fixnum(1), LispObject::Nil);
    let g2 = glyph_vector(LispObject::Fixnum(2), LispObject::Nil);
    let gs = LispObject::Vector(vec![LispObject::Nil, LispObject::Nil, LispObject::Nil, g1, g2, LispObject::Nil]);
    let table = vec![LispObject::Nil, gs];
    let mut s = LGString::from_id(&table, 1);
    assert_eq!(s.idx, 0);
    assert_eq!(s.glyph(1).width(), Ok(1));
    assert_eq!(s.next().unwrap().width(), Ok(1));
    assert_eq!(s.next().unwrap().width(), Ok(2));
    assert!(s.next().is_none());
    let mut missing = LGString::from_id(&table, 7);
    assert!(missing.next().is_none());
    let fresh = LGString::new(None);
    assert_eq!(fresh.idx, 0);
}
