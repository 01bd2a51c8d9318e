//! Ambient, mutable per-validation context.
//!
//! [`ValidationState`] is owned by one in-flight validation.  It carries the
//! strictness and lookup overrides of [`Extra`], the exactness ladder used as
//! a union tie-breaker, a tally of fields set, the partial-acceptance mode
//! and a recursion guard.  `Extra` is read-only from outside; a scoped
//! rebinding temporarily replaces it and hands back a token whose return
//! restores the snapshot.

use vstd::prelude::*;

verus! {

/// How closely an input matched the target type.  A union picks the branch
/// whose validation stayed highest on the ladder `Lax < Strict < Exact`.
#[derive(Clone, Copy, Debug, PartialEq, Eq, PartialOrd, Ord, Hash, Structural)]
pub enum Exactness {
    Lax,
    Strict,
    Exact,
}

impl Exactness {
    /// Position on the ladder.
    pub open spec fn rank(self) -> int {
        match self {
            Exactness::Lax => 0,
            Exactness::Strict => 1,
            Exactness::Exact => 2,
        }
    }

    /// The lower of two levels.
    pub open spec fn spec_min(a: Exactness, b: Exactness) -> Exactness {
        if a.rank() <= b.rank() {
            a
        } else {
            b
        }
    }

    /// One observation applied to the recorded level: `min`, treating an
    /// absent level as the top of the ladder.
    pub open spec fn spec_floor(cur: Option<Exactness>, obs: Exactness) -> Option<Exactness> {
        match cur {
            Option::None => Option::Some(obs),
            Option::Some(c) => Option::Some(Exactness::spec_min(c, obs)),
        }
    }
}

/// A sequence of observations applied in order to the recorded level.
pub open spec fn floor_all(init: Option<Exactness>, obs: Seq<Exactness>) -> Option<Exactness>
    decreases obs.len(),
{
    if obs.len() == 0 {
        init
    } else {
        Exactness::spec_floor(floor_all(init, obs.drop_last()), obs.last())
    }
}

/// The least level among a non-empty sequence of observations.
pub open spec fn seq_min(obs: Seq<Exactness>) -> Exactness
    recommends
        obs.len() > 0,
    decreases obs.len(),
{
    if obs.len() <= 1 {
        obs[0]
    } else {
        Exactness::spec_min(seq_min(obs.drop_last()), obs.last())
    }
}

/// Exactness monotonicity: one observation never raises the recorded level.
pub proof fn lemma_floor_exactness_monotone(cur: Exactness, obs: Exactness)
    ensures
        Exactness::spec_floor(Some(cur), obs).unwrap().rank() <= cur.rank(),
{
}

/// Exactness monotonicity: starting untracked, any sequence of recorded
/// observations leaves exactly the least of them, an absent level counting
/// as the top of the ladder.
pub proof fn lemma_floor_exactness_is_min(obs: Seq<Exactness>)
    requires
        obs.len() > 0,
    ensures
        floor_all(None, obs) == Some(seq_min(obs)),
    decreases obs.len(),
{
    if obs.len() == 1 {
        assert(floor_all(None, obs.drop_last()) == None::<Exactness>);
    } else {
        lemma_floor_exactness_is_min(obs.drop_last());
    }
}

/// One more recorded observation extends the fold by one
/// [`Exactness::spec_floor`] step, so a run of `floor_exactness` calls
/// computes exactly [`floor_all`] of its observations.
pub proof fn lemma_floor_all_step(init: Option<Exactness>, obs: Seq<Exactness>, e: Exactness)
    ensures
        floor_all(init, obs.push(e)) == Exactness::spec_floor(floor_all(init, obs), e),
{
    assert(obs.push(e).drop_last() =~= obs);
}

/// Partial acceptance of the final element of a sequence or mapping.
#[derive(Clone, Copy, Debug, PartialEq, Eq, Hash, Structural)]
pub enum PartialMode {
    Off,
    On,
    TrailingStrings,
}

impl PartialMode {
    /// Whether partial acceptance is enabled at all.
    pub open spec fn spec_is_active(self) -> bool {
        !(self is Off)
    }

    /// Whether partial acceptance is enabled at all.
    pub fn is_active(&self) -> (r: bool)
        ensures
            r == self.spec_is_active(),
    {
        !matches!(self, PartialMode::Off)
    }
}

impl Default for PartialMode {
    /// Partial acceptance is off unless asked for.
    fn default() -> (r: Self)
        ensures
            r == PartialMode::Off,
    {
        PartialMode::Off
    }
}

/// Policy for caching host strings built during validation.
#[derive(Clone, Copy, Debug, PartialEq, Eq, Hash, Structural)]
pub enum StringCacheMode {
    All,
    Keys,
    Off,
}

/// Per-call context threaded through a validation, read-only from outside
/// the state: strictness and lookup overrides and the string-cache policy.
#[derive(Clone, Copy, Debug, PartialEq, Eq, Structural)]
pub struct Extra {
    pub strict: Option<bool>,
    pub by_alias: Option<bool>,
    pub by_name: Option<bool>,
    pub cache_str: StringCacheMode,
}

/// Tracks validation nesting to prevent infinite descent.  The guard's
/// lifetime encloses the whole validation that uses it.
#[derive(Clone, Copy, Debug, PartialEq, Eq, Structural)]
pub struct RecursionState {
    pub depth: u64,
}

impl RecursionState {
    /// A guard that has seen no nesting yet.
    pub fn new() -> (r: RecursionState)
        ensures
            r.depth == 0,
    {
        RecursionState { depth: 0 }
    }
}

/// Ambient, mutable context of one in-flight validation.
pub struct ValidationState {
    pub recursion_guard: RecursionState,
    pub exactness: Option<Exactness>,
    /// Union tie-breaker for model validators: how many fields were set.
    pub fields_set_count: Option<usize>,
    pub allow_partial: PartialMode,
    /// Meant to be read-only between rebinding scopes: mutate it only
    /// through [`Self::rebind_extra`], which restores the snapshot when the
    /// scope ends.
    pub extra: Extra,
}

impl ValidationState {
    /// The current per-call context.
    pub open spec fn extra_spec(&self) -> Extra {
        self.extra
    }

    /// The same state with another per-call context.
    pub open spec fn with_extra(self, e: Extra) -> ValidationState {
        ValidationState { extra: e, ..self }
    }

    /// Everything but the recorded exactness is unchanged.
    pub open spec fn same_except_exactness(pre: Self, post: Self) -> bool {
        &&& post.recursion_guard == pre.recursion_guard
        &&& post.fields_set_count == pre.fields_set_count
        &&& post.allow_partial == pre.allow_partial
        &&& post.extra_spec() == pre.extra_spec()
    }

    /// A fresh state: exactness is not tracked and no fields are tallied
    /// until a union or model validator asks for them.
    pub fn new(extra: Extra, recursion_guard: RecursionState, allow_partial: PartialMode) -> (r: Self)
        ensures
            r.recursion_guard == recursion_guard,
            r.exactness is None,
            r.fields_set_count is None,
            r.allow_partial == allow_partial,
            r.extra_spec() == extra,
    {
        Self {
            recursion_guard,
            exactness: None,
            fields_set_count: None,
            allow_partial,
            extra,
        }
    }

    /// Temporarily rebinds the per-call context to `new_extra`.  The token
    /// holds the snapshot; hand it back to [`Self::restore_extra`] on every
    /// exit path so the snapshot is restored when the scope ends.
    pub fn rebind_extra(&mut self, new_extra: Extra) -> (r: ValidationStateWithReboundExtra)
        ensures
            r.saved == old(self).extra_spec(),
            *final(self) == old(self).with_extra(new_extra),
            final(self).extra_spec() == new_extra,
    {
        let saved = self.extra;
        self.extra = new_extra;
        ValidationStateWithReboundExtra { saved }
    }

    /// Ends a rebinding scope: puts the snapshot taken by
    /// [`Self::rebind_extra`] back into the state.
    pub fn restore_extra(&mut self, scope: ValidationStateWithReboundExtra)
        ensures
            *final(self) == old(self).with_extra(scope.saved),
            final(self).extra_spec() == scope.saved,
    {
        self.extra = scope.saved;
    }

    /// The current per-call context, read-only.
    pub fn extra(&self) -> (r: &Extra)
        ensures
            *r == self.extra_spec(),
    {
        &self.extra
    }

    /// Enumerates `items` with a flag that marks the final element when
    /// partial acceptance is active.
    pub fn enumerate_last_partial<T>(&self, items: Vec<T>) -> (r: EnumerateLastPartial<T>)
        ensures
            r.items@ == items@,
            r.index == 0,
            r.allow_partial == self.allow_partial,
    {
        EnumerateLastPartial::new(items, self.allow_partial)
    }

    /// The per-call strictness override if set, else the given default.
    pub open spec fn strict_or_spec(&self, default: bool) -> bool {
        self.extra_spec().strict.unwrap_or(default)
    }

    /// The per-call strictness override if set, else the given default.
    pub fn strict_or(&self, default: bool) -> (r: bool)
        ensures
            r == self.strict_or_spec(default),
    {
        match self.extra.strict {
            Some(b) => b,
            None => default,
        }
    }

    /// Whether lookup by alias is wanted: the per-call override, else the
    /// given default, else true.
    pub fn validate_by_alias_or(&self, default: Option<bool>) -> (r: bool)
        ensures
            r == (match self.extra_spec().by_alias {
                Some(b) => b,
                None => default.unwrap_or(true),
            }),
    {
        match self.extra.by_alias {
            Some(b) => b,
            None => match default {
                Some(b) => b,
                None => true,
            },
        }
    }

    /// Whether lookup by field name is wanted: the per-call override, else
    /// the given default, else false.
    pub fn validate_by_name_or(&self, default: Option<bool>) -> (r: bool)
        ensures
            r == (match self.extra_spec().by_name {
                Some(b) => b,
                None => default.unwrap_or(false),
            }),
    {
        match self.extra.by_name {
            Some(b) => b,
            None => match default {
                Some(b) => b,
                None => false,
            },
        }
    }

    /// Records one exactness observation: the recorded level becomes the
    /// lower of the current level and the observation, an absent level
    /// counting as the top of the ladder.  Designed for union validation,
    /// where the most exact branch wins.
    pub fn floor_exactness(&mut self, exactness: Exactness)
        ensures
            final(self).exactness == Exactness::spec_floor(old(self).exactness, exactness),
            Self::same_except_exactness(*old(self), *final(self)),
    {
        match self.exactness {
            None => {
                self.exactness = Some(exactness);
            },
            Some(Exactness::Lax) => {},
            Some(Exactness::Strict) => {
                if matches!(exactness, Exactness::Lax) {
                    self.exactness = Some(Exactness::Lax);
                }
            },
            Some(Exactness::Exact) => {
                self.exactness = Some(exactness);
            },
        }
    }

    /// Adds to the fields-set tally, initializing it lazily at zero.
    pub fn add_fields_set(&mut self, fields_set_count: usize)
        requires
            old(self).fields_set_count.unwrap_or(0) + fields_set_count <= usize::MAX,
        ensures
            final(self).fields_set_count
                == Some((old(self).fields_set_count.unwrap_or(0) + fields_set_count) as usize),
            final(self).recursion_guard == old(self).recursion_guard,
            final(self).exactness == old(self).exactness,
            final(self).allow_partial == old(self).allow_partial,
            final(self).extra_spec() == old(self).extra_spec(),
    {
        let current = match self.fields_set_count {
            Some(n) => n,
            None => 0,
        };
        self.fields_set_count = Some(current + fields_set_count);
    }

    /// The current string-cache policy.
    pub fn cache_str(&self) -> (r: StringCacheMode)
        ensures
            r == self.extra_spec().cache_str,
    {
        self.extra.cache_str
    }
}

/// Rebinding restoration: ending a scope with the snapshot taken at its
/// start puts the pre-scope context back, whatever the inner block did to
/// the state meanwhile.
pub proof fn lemma_rebind_extra_restores(s0: ValidationState, new_extra: Extra, mid: ValidationState)
    ensures
        mid.with_extra(s0.extra_spec()).extra_spec() == s0.extra_spec(),
        s0.with_extra(new_extra).with_extra(s0.extra_spec()) == (ValidationState {
            recursion_guard: s0.recursion_guard,
            exactness: s0.exactness,
            fields_set_count: s0.fields_set_count,
            allow_partial: s0.allow_partial,
            extra: s0.extra_spec(),
        }),
{
}

/// Rebinding changes nothing but the per-call context.
pub proof fn lemma_with_extra_fields(s: ValidationState, e: Extra)
    ensures
        s.with_extra(e).extra_spec() == e,
        s.with_extra(e).recursion_guard == s.recursion_guard,
        s.with_extra(e).exactness == s.exactness,
        s.with_extra(e).fields_set_count == s.fields_set_count,
        s.with_extra(e).allow_partial == s.allow_partial,
{
}

/// The token of a rebinding scope: holds the context snapshot taken when
/// the scope began.  Hand it back to `ValidationState::restore_extra` on
/// every exit path.
#[must_use]
pub struct ValidationStateWithReboundExtra {
    pub saved: Extra,
}

/// The flag [`EnumerateLastPartial`] attaches to the element at `k` of a
/// run over `len` elements.
pub open spec fn last_flag_at(len: int, partial: PartialMode, k: int) -> bool {
    partial.spec_is_active() && k == len - 1
}

/// Partial-mode flag: the flag is set for at most one element of a run, only
/// for the final one, and only when partial acceptance is active.
pub proof fn lemma_last_flag_unique(len: int, partial: PartialMode, j: int, k: int)
    requires
        0 <= j < len,
        0 <= k < len,
        last_flag_at(len, partial, j),
        last_flag_at(len, partial, k),
    ensures
        j == k,
        j == len - 1,
        partial.spec_is_active(),
{
}

/// Enumerates items together with a flag that is true exactly on the final
/// item when partial acceptance is active.
pub struct EnumerateLastPartial<T> {
    /// The items not yet handed out.
    pub items: Vec<T>,
    /// The index the next item will carry.
    pub index: usize,
    pub allow_partial: PartialMode,
}

impl<T> EnumerateLastPartial<T> {
    /// All indices handed out stay machine words.
    pub open spec fn wf(&self) -> bool {
        self.index + self.items@.len() <= usize::MAX
    }

    /// Starts a run over `items`.
    pub fn new(items: Vec<T>, allow_partial: PartialMode) -> (r: Self)
        ensures
            r.items@ == items@,
            r.index == 0,
            r.allow_partial == allow_partial,
            r.wf(),
    {
        let _len: usize = items.len();
        Self { items, index: 0, allow_partial }
    }

    /// Hands out the next item as `(index, is_last_in_partial_mode, item)`:
    /// the flag is true only when partial acceptance is active and the item
    /// is the final one of the run.
    pub fn next(&mut self) -> (r: Option<(usize, bool, T)>)
        requires
            old(self).wf(),
        ensures
            final(self).wf(),
            final(self).allow_partial == old(self).allow_partial,
            old(self).items@.len() == 0 ==> (r is None && *final(self) == *old(self)),
            old(self).items@.len() > 0 ==> ({
                &&& r == Some((
                    old(self).index,
                    last_flag_at(old(self).items@.len() + old(self).index, old(self).allow_partial, old(self).index as int),
                    old(self).items@[0],
                ))
                &&& final(self).items@ == old(self).items@.drop_first()
                &&& final(self).index == old(self).index + 1
            }),
    {
        if self.items.len() == 0 {
            return None;
        }
        let item = self.items.remove(0);
        let i = self.index;
        self.index = i + 1;
        let is_last = self.allow_partial.is_active() && self.items.len() == 0;
        assert(final(self).items@ == old(self).items@.drop_first());
        Some((i, is_last, item))
    }

    /// Runs the enumeration to its end.  Element `k` of the result is
    /// `(index, flag, item)` for item `k` of the remaining items, and the
    /// flag is true exactly on the final element when partial acceptance is
    /// active: at most once per run.
    pub fn drain(&mut self) -> (r: Vec<(usize, bool, T)>)
        requires
            old(self).wf(),
        ensures
            final(self).items@.len() == 0,
            r@.len() == old(self).items@.len(),
            forall|k: int| 0 <= k < r@.len() ==> ({
                &&& #[trigger] r@[k].0 == old(self).index + k
                &&& r@[k].1 == last_flag_at(
                    old(self).items@.len() as int,
                    old(self).allow_partial,
                    k,
                )
                &&& r@[k].2 == old(self).items@[k]
            }),
    {
        let mut out: Vec<(usize, bool, T)> = Vec::new();
        while self.items.len() > 0
            invariant
                self.wf(),
                self.allow_partial == old(self).allow_partial,
                self.index == old(self).index + out@.len(),
                out@.len() + self.items@.len() == old(self).items@.len(),
                self.items@ == old(self).items@.subrange(out@.len() as int, old(self).items@.len() as int),
                forall|k: int| 0 <= k < out@.len() ==> ({
                    &&& #[trigger] out@[k].0 == old(self).index + k
                    &&& out@[k].1 == last_flag_at(
                        old(self).items@.len() as int,
                        old(self).allow_partial,
                        k,
                    )
                    &&& out@[k].2 == old(self).items@[k]
                }),
            decreases self.items@.len(),
        {
            let ghost done = out@.len() as int;
            let ghost total = old(self).items@.len() as int;
            let ghost pre = *self;
            let entry = self.next().unwrap();
            proof {
                assert(pre.items@[0] == old(self).items@[done]);
                assert(pre.items@.drop_first() =~= old(self).items@.subrange(done + 1, total));
            }
            out.push(entry);
            proof {
                assert(out@[done] == entry);
                assert(entry.1 == last_flag_at(total, old(self).allow_partial, done));
            }
        }
        out
    }
}

} // verus!
