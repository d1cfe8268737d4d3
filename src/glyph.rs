//! Read-only views over glyph runs and composed glyph data owned by the host.
use vstd::prelude::*;
use vstd::slice::slice_subrange;

verus! {

/// A character code of a glyph run.
pub type XChar2b = u32;

/// A value of the host's object system, as far as the glyph bridge reads it.
pub enum LispObject {
    Nil,
    Fixnum(i64),
    Vector(Vec<LispObject>),
    Other,
}

/// Errors raised by accessors that meet a value of an unexpected shape.
#[derive(Debug, PartialEq, Eq, Structural, Clone, Copy)]
pub enum GlyphError {
    /// The value found is not of the expected kind.
    TypeMismatch,
    /// The index lies outside the vector read.
    OutOfRange,
}

/// How the characters of a composition are combined.
#[derive(Debug, PartialEq, Eq, Structural, Clone, Copy)]
pub enum CompositionMethod {
    Relative,
    WithAltchars,
    WithRule,
    WithRuleAltchars,
}

/// The composition a run belongs to.
pub struct Composition {
    /// Pairs of (x, y) offsets, two entries per character of the run.
    pub offsets: Vec<i16>,
    /// Index of the composition in the host's composition hash table.
    pub hash_index: usize,
    pub method: CompositionMethod,
}

/// One run of shaped glyphs sharing rendering attributes.
pub struct GlyphString {
    pub nchars: usize,
    pub char2b: Vec<XChar2b>,
    pub cmp: Option<Composition>,
    pub cmp_from: usize,
    pub cmp_to: usize,
    /// Index of the run's first glyph in the host's glyph matrix.
    pub first_glyph: usize,
    /// Index of the next run of the chain, if any.
    pub next: Option<usize>,
}

impl GlyphString {
    pub open spec fn wf(&self) -> bool {
        &&& self.char2b@.len() == self.nchars
        &&& self.nchars <= usize::MAX / 2
        &&& (self.cmp matches Some(c) ==> c.offsets@.len() == 2 * self.nchars)
    }
}

/// The host-owned arena holding every glyph run of a redisplay. A run's `next`
/// names a later run of the arena, so that every chain ends: the host lays runs
/// out in chain order, and `from_runs` refuses any other layout.
pub struct GlyphArena {
    pub runs: Vec<GlyphString>,
}

/// Whether `next` of the run at `i` stays in bounds and points forward.
pub open spec fn link_ok(runs: Seq<GlyphString>, i: int) -> bool {
    match runs[i].next {
        None => true,
        Some(j) => i < j && j < runs.len(),
    }
}

/// Whether the run at `i` is well formed and its link is in order.
pub open spec fn run_ok(runs: Seq<GlyphString>, i: int) -> bool {
    runs[i].wf() && link_ok(runs, i)
}

impl GlyphArena {
    pub open spec fn runs(&self) -> Seq<GlyphString> {
        self.runs@
    }

    pub open spec fn wf(&self) -> bool {
        forall|i: int| 0 <= i < self.runs@.len() ==> #[trigger] run_ok(self.runs@, i)
    }

    /// Takes ownership of `runs`; refused (`None`) unless every run is well formed and
    /// every link points to a later run of the arena.
    pub fn from_runs(runs: Vec<GlyphString>) -> (r: Option<GlyphArena>)
        ensures
            r is Some <==> (forall|i: int| 0 <= i < runs@.len() ==> #[trigger] run_ok(runs@, i)),
            r matches Some(a) ==> a.runs() == runs@ && a.wf(),
    {
        let mut i: usize = 0;
        while i < runs.len()
            invariant
                i <= runs@.len(),
                forall|k: int| 0 <= k < i ==> #[trigger] run_ok(runs@, k),
            decreases runs@.len() - i,
        {
            let run = &runs[i];
            let ok_chars = run.char2b.len() == run.nchars && run.nchars <= usize::MAX / 2;
            let ok_cmp = match &run.cmp {
                None => true,
                Some(c) => ok_chars && c.offsets.len() == 2 * run.nchars,
            };
            let ok_link = match run.next {
                None => true,
                Some(j) => i < j && j < runs.len(),
            };
            if !(ok_chars && ok_cmp && ok_link) {
                assert(!run_ok(runs@, i as int));
                return None;
            }
            i += 1;
        }
        Some(GlyphArena { runs })
    }
}

/// A reference to a glyph in the host's glyph matrix.
#[derive(Debug, PartialEq, Eq, Structural, Clone, Copy)]
pub struct GlyphRef {
    pub index: usize,
}

/// A reference to one run of an arena.
#[derive(Debug, PartialEq, Eq, Structural, Clone, Copy)]
pub struct GlyphStringRef {
    pub index: usize,
}

/// End of the clamped composition range, in characters.
pub open spec fn clamped_to(run: GlyphString) -> int {
    if run.cmp_to <= run.nchars { run.cmp_to as int } else { run.nchars as int }
}

/// Start of the composition range, never past its clamped end.
pub open spec fn clamped_from(run: GlyphString) -> int {
    if run.cmp_from as int <= clamped_to(run) { run.cmp_from as int } else { clamped_to(run) }
}

/// Index of the `n`-th glyph of a composition's glyph vector.
pub open spec fn glyph_slot(method: CompositionMethod, n: int) -> int {
    if method == CompositionMethod::WithRuleAltchars { 2 * n } else { n }
}

/// What the composition lookup yields for run `run`, composed glyph `n` and the
/// composition table's key/value vector `kv`.
pub open spec fn composite_glyph_spec(run: GlyphString, kv: Seq<LispObject>, n: int) -> Result<i64, GlyphError> {
    match run.cmp {
        None => Err(GlyphError::TypeMismatch),
        Some(c) => {
            let ci = 2 * c.hash_index;
            if ci >= kv.len() {
                Err(GlyphError::OutOfRange)
            } else {
                match kv[ci] {
                    LispObject::Vector(comp) => {
                        let gi = glyph_slot(c.method, run.cmp_from + n);
                        if gi >= comp@.len() {
                            Err(GlyphError::OutOfRange)
                        } else {
                            match comp@[gi] {
                                LispObject::Fixnum(v) => Ok(v),
                                _ => Err(GlyphError::TypeMismatch),
                            }
                        }
                    },
                    _ => Err(GlyphError::TypeMismatch),
                }
            }
        },
    }
}

impl GlyphStringRef {
    pub open spec fn run(&self, arena: &GlyphArena) -> GlyphString {
        arena.runs()[self.index as int]
    }

    pub open spec fn valid(&self, arena: &GlyphArena) -> bool {
        arena.wf() && self.index < arena.runs().len()
    }

    /// The characters of the run.
    pub fn get_chars<'a>(&self, arena: &'a GlyphArena) -> (r: &'a [XChar2b])
        requires
            self.valid(arena),
        ensures
            r@ == self.run(arena).char2b@,
            r@.len() == self.run(arena).nchars,
    {
        let run = &arena.runs[self.index];
        proof {
            assert(run_ok(arena.runs@, self.index as int));
        }
        run.char2b.as_slice()
    }

    pub fn first_glyph(&self, arena: &GlyphArena) -> (r: GlyphRef)
        requires
            self.valid(arena),
        ensures
            r.index == self.run(arena).first_glyph,
    {
        GlyphRef { index: arena.runs[self.index].first_glyph }
    }

    /// The (x, y) offset pairs of the run's composed characters, clamped so that the
    /// range never reaches past `nchars`; `None` when the run has no composition.
    pub fn composite_offsets<'a>(&self, arena: &'a GlyphArena) -> (r: Option<&'a [i16]>)
        requires
            self.valid(arena),
        ensures
            r is Some <==> self.run(arena).cmp is Some,
            r matches Some(s) ==> s@ == self.run(arena).cmp.unwrap().offsets@.subrange(
                2 * clamped_from(self.run(arena)),
                2 * clamped_to(self.run(arena)),
            ),
            r matches Some(s) ==> s@.len() <= 2 * self.run(arena).nchars,
    {
        let run = &arena.runs[self.index];
        proof {
            assert(run_ok(arena.runs@, self.index as int));
        }
        match &run.cmp {
            None => None,
            Some(c) => {
                let to = if run.cmp_to <= run.nchars { run.cmp_to } else { run.nchars };
                let from = if run.cmp_from <= to { run.cmp_from } else { to };
                Some(slice_subrange(c.offsets.as_slice(), 2 * from, 2 * to))
            },
        }
    }

    /// The run's composed characters, over the same clamped range.
    pub fn composite_chars<'a>(&self, arena: &'a GlyphArena) -> (r: &'a [XChar2b])
        requires
            self.valid(arena),
        ensures
            r@ == self.run(arena).char2b@.subrange(clamped_from(self.run(arena)), clamped_to(self.run(arena))),
            r@.len() <= self.run(arena).nchars,
    {
        let run = &arena.runs[self.index];
        proof {
            assert(run_ok(arena.runs@, self.index as int));
        }
        let to = if run.cmp_to <= run.nchars { run.cmp_to } else { run.nchars };
        let from = if run.cmp_from <= to { run.cmp_from } else { to };
        slice_subrange(self.get_chars(arena), from, to)
    }

    /// The identifier of the `n`-th composed glyph, looked up through the key/value
    /// vector `key_and_value` of the host's composition hash table.
    pub fn composite_glyph(&self, arena: &GlyphArena, key_and_value: &Vec<LispObject>, n: usize) -> (r: Result<i64, GlyphError>)
        requires
            self.valid(arena),
        ensures
            r == composite_glyph_spec(self.run(arena), key_and_value@, n as int),
    {
        let run = &arena.runs[self.index];
        match &run.cmp {
            None => Err(GlyphError::TypeMismatch),
            Some(c) => {
                if c.hash_index >= key_and_value.len() || key_and_value.len() - c.hash_index <= c.hash_index {
                    return Err(GlyphError::OutOfRange);
                }
                let ci = 2 * c.hash_index;
                match &key_and_value[ci] {
                    LispObject::Vector(comp) => {
                        if run.cmp_from >= comp.len() || n >= comp.len() - run.cmp_from {
                            return Err(GlyphError::OutOfRange);
                        }
                        let k = run.cmp_from + n;
                        let gi = if c.method == CompositionMethod::WithRuleAltchars {
                            if k >= comp.len() - k {
                                return Err(GlyphError::OutOfRange);
                            }
                            2 * k
                        } else {
                            k
                        };
                        match &comp[gi] {
                            LispObject::Fixnum(v) => Ok(*v),
                            _ => Err(GlyphError::TypeMismatch),
                        }
                    },
                    _ => Err(GlyphError::TypeMismatch),
                }
            },
        }
    }

    /// An iterator over the chain of runs that starts at this one.
    pub fn into_iter(self) -> (r: GlyphStringIntoIterator)
        ensures
            r.next_glyph_string == Some(self),
    {
        GlyphStringIntoIterator { next_glyph_string: Some(self) }
    }
}

/// The indices of the chain of runs that starts at `i`, in link order.
pub open spec fn chain_from(runs: Seq<GlyphString>, i: int) -> Seq<usize>
    decreases runs.len() - i,
{
    if 0 <= i < runs.len() {
        match runs[i].next {
            Some(j) => if i < j && j < runs.len() { seq![i as usize] + chain_from(runs, j as int) } else { seq![i as usize] },
            None => seq![i as usize],
        }
    } else {
        seq![]
    }
}

/// Forward-only iterator over a chain of runs.
pub struct GlyphStringIntoIterator {
    pub next_glyph_string: Option<GlyphStringRef>,
}

impl GlyphStringIntoIterator {
    /// The indices that the iterator has still to yield.
    pub open spec fn remaining(&self, arena: &GlyphArena) -> Seq<usize> {
        match self.next_glyph_string {
            None => seq![],
            Some(r) => chain_from(arena.runs(), r.index as int),
        }
    }

    pub open spec fn valid(&self, arena: &GlyphArena) -> bool {
        arena.wf() && (self.next_glyph_string matches Some(r) ==> r.index < arena.runs().len())
    }

    /// Yields the current run and steps to its successor; the chain ends at a run
    /// without successor, which is itself yielded.
    pub fn next(&mut self, arena: &GlyphArena) -> (r: Option<GlyphStringRef>)
        requires
            old(self).valid(arena),
        ensures
            final(self).valid(arena),
            old(self).remaining(arena).len() == 0 ==> r is None,
            old(self).remaining(arena).len() > 0 ==> r == Some(GlyphStringRef { index: old(self).remaining(arena)[0] }),
            old(self).remaining(arena).len() > 0 ==> final(self).remaining(arena) == old(self).remaining(arena).drop_first(),
            old(self).remaining(arena).len() == 0 ==> final(self).remaining(arena).len() == 0,
    {
        let result = self.next_glyph_string;
        match result {
            None => None,
            Some(cur) => {
                proof {
                    assert(run_ok(arena.runs(), cur.index as int));
                }
                let new_next = match arena.runs[cur.index].next {
                    None => None,
                    Some(j) => Some(GlyphStringRef { index: j }),
                };
                self.next_glyph_string = new_next;
                proof {
                    let s = chain_from(arena.runs(), cur.index as int);
                    assert(s.drop_first() =~= self.remaining(arena));
                }
                result
            },
        }
    }
}

/// A chain of runs lists each run once, in link order: it starts at the given run,
/// each element is followed by the run its `next` names, and it ends at the run
/// whose `next` is absent.
pub proof fn lemma_chain_follows_links(arena: &GlyphArena, i: usize)
    requires
        arena.wf(),
        i < arena.runs().len(),
    ensures
        chain_from(arena.runs(), i as int).len() >= 1,
        chain_from(arena.runs(), i as int)[0] == i,
        forall|k: int| 0 <= k < chain_from(arena.runs(), i as int).len() - 1 ==>
            arena.runs()[#[trigger] chain_from(arena.runs(), i as int)[k] as int].next
                == Some(chain_from(arena.runs(), i as int)[k + 1]),
        arena.runs()[chain_from(arena.runs(), i as int).last() as int].next is None,
        forall|k: int, l: int| #![trigger chain_from(arena.runs(), i as int)[k], chain_from(arena.runs(), i as int)[l]]
            0 <= k < l < chain_from(arena.runs(), i as int).len() ==>
            chain_from(arena.runs(), i as int)[k] < chain_from(arena.runs(), i as int)[l],
    decreases arena.runs().len() - i,
{
    let runs = arena.runs();
    assert(run_ok(runs, i as int));
    let s = chain_from(runs, i as int);
    match runs[i as int].next {
        None => {},
        Some(j) => {
            lemma_chain_follows_links(arena, j);
            let t = chain_from(runs, j as int);
            assert(s == seq![i] + t);
            assert forall|k: int| 0 <= k < s.len() - 1 implies runs[#[trigger] s[k] as int].next == Some(s[k + 1]) by {
                if k > 0 {
                    assert(s[k] == t[k - 1]);
                    assert(s[k + 1] == t[k]);
                }
            }
            assert forall|k: int, l: int| #![trigger s[k], s[l]] 0 <= k < l < s.len() implies s[k] < s[l] by {
                if k > 0 {
                    assert(s[k] == t[k - 1]);
                }
                assert(s[l] == t[l - 1]);
                assert(t[l - 1] >= t[0]) by {
                    if l - 1 > 0 {
                        assert(t[0] < t[l - 1]);
                    }
                }
            }
        },
    }
}

/// Slot of a glyph vector that holds the glyph's width.
pub const LGLYPH_IX_WIDTH: usize = 4;
/// Slot of a glyph vector that holds the glyph's adjustment vector.
pub const LGLYPH_IX_ADJUSTMENT: usize = 9;

/// The element `i` of `o`, when `o` is a vector that has one.
pub open spec fn aref(o: Option<&LispObject>, i: int) -> Option<&LispObject> {
    match o {
        Some(LispObject::Vector(v)) => if 0 <= i < v@.len() { Some(&v@[i]) } else { None },
        _ => None,
    }
}

pub open spec fn is_nil_spec(o: Option<&LispObject>) -> bool {
    o is None || o == Some(&LispObject::Nil)
}

/// Reads element `i` of `o`; `None` when `o` is not a vector or has no such element.
pub fn aref_checked<'a>(o: Option<&'a LispObject>, i: usize) -> (r: Option<&'a LispObject>)
    ensures
        r == aref(o, i as int),
{
    match o {
        Some(LispObject::Vector(v)) => if i < v.len() { Some(&v[i]) } else { None },
        _ => None,
    }
}

/// The integer held in an element, or why there is none.
pub open spec fn fixnum_of(o: Option<&LispObject>) -> Result<i64, GlyphError> {
    match o {
        None => Err(GlyphError::OutOfRange),
        Some(LispObject::Fixnum(v)) => Ok(*v),
        Some(_) => Err(GlyphError::TypeMismatch),
    }
}

fn as_fixnum_or_error(o: Option<&LispObject>) -> (r: Result<i64, GlyphError>)
    ensures
        r == fixnum_of(o),
{
    match o {
        None => Err(GlyphError::OutOfRange),
        Some(LispObject::Fixnum(v)) => Ok(*v),
        Some(_) => Err(GlyphError::TypeMismatch),
    }
}

/// Adjustment `i` of a glyph vector: zero unless the adjustment slot is a vector.
pub open spec fn adjustment_spec(glyph: Option<&LispObject>, i: int) -> Result<i64, GlyphError> {
    let adj = aref(glyph, LGLYPH_IX_ADJUSTMENT as int);
    match adj {
        Some(LispObject::Vector(_)) => fixnum_of(aref(adj, i)),
        _ => Ok(0),
    }
}

/// A glyph of a host glyph-string, read through a borrowed vector.
pub struct LGlyph<'a> {
    pub ptr: Option<&'a LispObject>,
}

impl<'a> LGlyph<'a> {
    pub fn new(ptr: Option<&'a LispObject>) -> (r: LGlyph<'a>)
        ensures
            r.ptr == ptr,
    {
        LGlyph { ptr }
    }

    pub fn is_nil(&self) -> (r: bool)
        ensures
            r == is_nil_spec(self.ptr),
    {
        match self.ptr {
            None => true,
            Some(LispObject::Nil) => true,
            Some(_) => false,
        }
    }

    fn adjustment_ptr(&self) -> (r: Option<&'a LispObject>)
        ensures
            r == aref(self.ptr, LGLYPH_IX_ADJUSTMENT as int),
    {
        aref_checked(self.ptr, LGLYPH_IX_ADJUSTMENT)
    }

    fn adjustment_value(&self, i: usize) -> (r: Result<i64, GlyphError>)
        ensures
            r == adjustment_spec(self.ptr, i as int),
    {
        let adj = self.adjustment_ptr();
        match adj {
            Some(LispObject::Vector(_)) => as_fixnum_or_error(aref_checked(adj, i)),
            _ => Ok(0),
        }
    }

    /// The glyph's width: a required integer slot.
    pub fn width(&self) -> (r: Result<i64, GlyphError>)
        ensures
            r == fixnum_of(aref(self.ptr, LGLYPH_IX_WIDTH as int)),
    {
        as_fixnum_or_error(aref_checked(self.ptr, LGLYPH_IX_WIDTH))
    }

    /// Whether the glyph carries an adjustment vector.
    pub fn has_adjustment(&self) -> (r: bool)
        ensures
            r == (aref(self.ptr, LGLYPH_IX_ADJUSTMENT as int) matches Some(LispObject::Vector(_))),
    {
        match self.adjustment_ptr() {
            Some(LispObject::Vector(_)) => true,
            _ => false,
        }
    }

    pub fn x_offset(&self) -> (r: Result<i64, GlyphError>)
        ensures
            r == adjustment_spec(self.ptr, 0),
    {
        self.adjustment_value(0)
    }

    pub fn y_offset(&self) -> (r: Result<i64, GlyphError>)
        ensures
            r == adjustment_spec(self.ptr, 1),
    {
        self.adjustment_value(1)
    }

    pub fn width_adjustment(&self) -> (r: Result<i64, GlyphError>)
        ensures
            r == adjustment_spec(self.ptr, 2),
    {
        self.adjustment_value(2)
    }
}

/// A host glyph-string: a header of two slots followed by its glyphs.
pub struct LGString<'a> {
    pub ptr: Option<&'a LispObject>,
    pub idx: usize,
}

impl<'a> LGString<'a> {
    pub fn new(ptr: Option<&'a LispObject>) -> (r: LGString<'a>)
        ensures
            r.ptr == ptr,
            r.idx == 0,
    {
        LGString { ptr, idx: 0 }
    }

    /// The glyph-string registered under `id` in the host's table of glyph-strings.
    pub fn from_id(table: &'a Vec<LispObject>, id: usize) -> (r: LGString<'a>)
        ensures
            r.ptr == (if id < table@.len() { Some(&table@[id as int]) } else { None::<&LispObject> }),
            r.idx == 0,
    {
        let ptr = if id < table.len() { Some(&table[id]) } else { None };
        Self::new(ptr)
    }

    /// Glyph `idx` of the string; a nil glyph where there is none.
    pub fn glyph(&self, idx: usize) -> (r: LGlyph<'a>)
        ensures
            r.ptr == (if idx < usize::MAX - 2 { aref(self.ptr, idx + 2) } else { None }),
    {
        if idx < usize::MAX - 2 {
            LGlyph::new(aref_checked(self.ptr, idx + 2))
        } else {
            LGlyph::new(None)
        }
    }

    /// Steps to the following glyph and yields it, or `None` where it is nil.
    pub fn next(&mut self) -> (r: Option<LGlyph<'a>>)
        requires
            old(self).idx < usize::MAX,
        ensures
            final(self).ptr == old(self).ptr,
            final(self).idx == old(self).idx + 1,
            r is None <==> is_nil_spec(if final(self).idx < usize::MAX - 2 { aref(old(self).ptr, final(self).idx + 2) } else { None }),
            r matches Some(g) ==> g.ptr == aref(old(self).ptr, final(self).idx + 2),
    {
        self.idx = self.idx + 1;
        let next_glyph = self.glyph(self.idx);
        if next_glyph.is_nil() {
            None
        } else {
            Some(next_glyph)
        }
    }
}

} // verus!
