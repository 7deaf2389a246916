//! The modules that a runtime has met, and who gets to initialize them.
//!
//! Every module identifier has one slot. The first caller who asks for a
//! module is told to initialize it; whoever asks while that is under way is
//! told to wait for the outcome; once it has succeeded, everybody is told
//! that the module is ready. Whoever waited takes the outcome of the one
//! attempt it waited for: the module where the attempt succeeded, and its
//! error where it failed. An initialization that fails leaves its slot
//! vacant, and the next caller who asks tries again.

use vstd::prelude::*;

verus! {

/// What a slot holds.
#[derive(Clone, Copy, Debug, PartialEq, Eq, Structural)]
pub enum Slot {
    /// No module, and nobody at work on one.
    Vacant,
    /// One caller is at work on the module.
    Initializing,
    /// The module is there.
    Ready,
}

/// What a caller who asked for a module is to do; the number is the slot
/// of the module.
#[derive(Clone, Copy, Debug, PartialEq, Eq, Structural)]
pub enum Resolution {
    /// Initialize the module and report how it went.
    Initialize(usize),
    /// Wait for the caller who initializes the module.
    Wait(usize),
    /// Use the module.
    Ready(usize),
}

/// A cache as a mathematical value: the identifiers in the order in which
/// they were first met, and the slot of each.
pub ghost struct CacheState {
    pub names: Seq<Seq<char>>,
    pub slots: Seq<Slot>,
}

/// The position of `module` among `names` at or behind `from`, or the
/// number of names where it is not among them.
pub open spec fn spec_find(names: Seq<Seq<char>>, module: Seq<char>, from: int) -> int
    decreases names.len() - from,
{
    if 0 <= from < names.len() && names[from] != module {
        spec_find(names, module, from + 1)
    } else {
        from
    }
}

/// Every identifier has a slot, and none stands twice.
pub open spec fn spec_cache_wf(c: CacheState) -> bool {
    &&& c.names.len() == c.slots.len()
    &&& forall|i: int, j: int|
        0 <= i < j < c.names.len() ==> #[trigger] c.names[i] != #[trigger] c.names[j]
}

/// What a caller who asks for `module` is told.
pub open spec fn spec_resolution(c: CacheState, module: Seq<char>) -> Resolution {
    let at = spec_find(c.names, module, 0);
    if at >= c.names.len() {
        Resolution::Initialize(c.names.len() as usize)
    } else {
        match c.slots[at] {
            Slot::Vacant => Resolution::Initialize(at as usize),
            Slot::Initializing => Resolution::Wait(at as usize),
            Slot::Ready => Resolution::Ready(at as usize),
        }
    }
}

/// The cache after a caller asked for `module`.
pub open spec fn spec_resolve(c: CacheState, module: Seq<char>) -> CacheState {
    let at = spec_find(c.names, module, 0);
    if at >= c.names.len() {
        CacheState { names: c.names.push(module), slots: c.slots.push(Slot::Initializing) }
    } else if c.slots[at] == Slot::Vacant {
        CacheState { names: c.names, slots: c.slots.update(at, Slot::Initializing) }
    } else {
        c
    }
}

/// The cache after the initialization in `slot` ended; `ok` says that it
/// succeeded.
pub open spec fn spec_init_done(c: CacheState, slot: int, ok: bool) -> CacheState {
    if 0 <= slot < c.slots.len() && c.slots[slot] == Slot::Initializing {
        CacheState {
            names: c.names,
            slots: c.slots.update(
                slot,
                if ok {
                    Slot::Ready
                } else {
                    Slot::Vacant
                },
            ),
        }
    } else {
        c
    }
}

/// What a caller does who waited for the initialization in `slot`, once
/// that attempt has ended with `outcome`: on success it uses the module in
/// the slot, on failure it gives up with the error of that attempt.
pub open spec fn spec_after_wait(slot: usize, outcome: Result<(), Seq<char>>) -> Result<
    usize,
    Seq<char>,
> {
    match outcome {
        Ok(_) => Ok(slot),
        Err(e) => Err(e),
    }
}

/// The cache after `times` callers in a row asked for `module`.
pub open spec fn spec_resolve_times(c: CacheState, module: Seq<char>, times: nat) -> CacheState
    decreases times,
{
    if times == 0 {
        c
    } else {
        spec_resolve(spec_resolve_times(c, module, (times - 1) as nat), module)
    }
}

/// The modules of one runtime.
pub struct ModuleCache {
    names: Vec<String>,
    slots: Vec<Slot>,
}

impl View for ModuleCache {
    type V = CacheState;

    closed spec fn view(&self) -> CacheState {
        CacheState { names: Seq::new(self.names@.len(), |i: int| self.names@[i]@), slots: self.slots@ }
    }
}

impl ModuleCache {
    /// Whether the cache is in order. Every cache that this module hands
    /// out is, and every step keeps it so.
    pub open spec fn wf(&self) -> bool {
        spec_cache_wf(self@)
    }

    /// A cache that has met no module.
    pub fn new() -> (cache: Self)
        ensures
            cache.wf(),
            cache@.names.len() == 0,
            cache@.slots.len() == 0,
    {
        ModuleCache { names: Vec::new(), slots: Vec::new() }
    }

    /// The number of modules met so far.
    pub fn len(&self) -> (n: usize)
        requires
            self.wf(),
        ensures
            n == self@.names.len(),
    {
        self.names.len()
    }

    /// The position of `module` in the cache, or the number of modules
    /// where it was not met yet.
    pub fn find(&self, module: &String) -> (at: usize)
        requires
            self.wf(),
        ensures
            at == spec_find(self@.names, module@, 0),
            at <= self@.names.len(),
    {
        let n: usize = self.names.len();
        let mut i: usize = 0;
        while i < n && !(self.names[i] == *module)
            invariant
                i <= n == self@.names.len(),
                n == self.names@.len(),
                spec_find(self@.names, module@, 0) == spec_find(self@.names, module@, i as int),
            decreases n - i,
        {
            i = i + 1;
        }
        i
    }

    /// Asks for `module` on behalf of one caller and says what that caller
    /// is to do.
    pub fn resolve(&mut self, module: String) -> (out: Resolution)
        requires
            old(self).wf(),
        ensures
            final(self).wf(),
            final(self)@ == spec_resolve(old(self)@, module@),
            out == spec_resolution(old(self)@, module@),
    {
        let at: usize = self.find(&module);
        if at >= self.names.len() {
            proof {
                lemma_find_bounds(self@.names, module@, 0);
            }
            self.names.push(module);
            self.slots.push(Slot::Initializing);
            assert(self@.names =~= old(self)@.names.push(module@));
            return Resolution::Initialize(at);
        }
        match self.slots[at] {
            Slot::Vacant => {
                self.slots.set(at, Slot::Initializing);
                assert(self@.names =~= old(self)@.names);
                Resolution::Initialize(at)
            },
            Slot::Initializing => Resolution::Wait(at),
            Slot::Ready => Resolution::Ready(at),
        }
    }

    /// Notes how the initialization in `slot` ended. Nothing changes where
    /// no initialization is under way there.
    pub fn init_done(&mut self, slot: usize, ok: bool)
        requires
            old(self).wf(),
        ensures
            final(self).wf(),
            final(self)@ == spec_init_done(old(self)@, slot as int, ok),
    {
        if slot >= self.slots.len() {
            return ;
        }
        match self.slots[slot] {
            Slot::Initializing => {
                self.slots.set(
                    slot,
                    if ok {
                        Slot::Ready
                    } else {
                        Slot::Vacant
                    },
                );
                assert(self@.names =~= old(self)@.names);
            },
            _ => {},
        }
    }
}

/// Says what a caller does who was told to wait for the initialization in
/// `slot`, once that attempt has ended with `outcome`. On success the
/// caller uses the module in the slot. On failure it gives up with the
/// error of the attempt it waited for. Either way it does not ask the cache
/// again, so that a failed attempt is never repeated on account of those
/// who waited for it.
pub fn after_wait(slot: usize, outcome: Result<(), String>) -> (out: Result<usize, String>)
    ensures
        match (outcome, out) {
            (Ok(_), Ok(at)) => at == slot,
            (Err(e), Err(got)) => got == e,
            _ => false,
        },
{
    match outcome {
        Ok(_) => Ok(slot),
        Err(e) => Err(e),
    }
}

/// The search ends inside the names or right behind them; where it ends
/// inside, it has found the module, and nothing before that is the module.
pub proof fn lemma_find_bounds(names: Seq<Seq<char>>, module: Seq<char>, from: int)
    requires
        0 <= from <= names.len(),
    ensures
        from <= spec_find(names, module, from) <= names.len(),
        spec_find(names, module, from) < names.len() ==> names[spec_find(names, module, from)]
            == module,
        forall|i: int| from <= i < spec_find(names, module, from) ==> #[trigger] names[i] != module,
    decreases names.len() - from,
{
    if from < names.len() && names[from] != module {
        lemma_find_bounds(names, module, from + 1);
    }
}

/// A module that stands at `at` is found there.
pub proof fn lemma_find_at(names: Seq<Seq<char>>, module: Seq<char>, from: int, at: int)
    requires
        0 <= from <= at < names.len(),
        names[at] == module,
        forall|i: int| from <= i < at ==> #[trigger] names[i] != module,
    ensures
        spec_find(names, module, from) == at,
    decreases at - from,
{
    if from < at {
        lemma_find_at(names, module, from + 1, at);
    }
}

/// Of all the callers who ask for a module before its initialization has
/// ended, exactly one is told to initialize it: the first. Every later one
/// is told to wait, for the same slot, and changes nothing.
pub proof fn lemma_one_initialization(c: CacheState, module: Seq<char>)
    requires
        spec_cache_wf(c),
        spec_resolution(c, module) is Initialize,
    ensures
        spec_cache_wf(spec_resolve(c, module)),
        spec_resolution(spec_resolve(c, module), module) == Resolution::Wait(
            spec_resolution(c, module)->Initialize_0,
        ),
        spec_resolve(spec_resolve(c, module), module) == spec_resolve(c, module),
{
    let at = spec_find(c.names, module, 0);
    let d = spec_resolve(c, module);
    lemma_find_bounds(c.names, module, 0);
    lemma_find_at(d.names, module, 0, at);
}

/// However many callers ask for a module while its initialization is under
/// way, there is one attempt: the first caller is told to initialize, every
/// later one is told to wait for the same slot, and the cache stays as the
/// first caller left it. When the attempt fails with an error, each of
/// those who waited gets that error, and when it succeeds, each uses the
/// module of that slot.
pub proof fn lemma_waiters_share_one_attempt(
    c: CacheState,
    module: Seq<char>,
    callers: nat,
    error: Seq<char>,
)
    requires
        spec_cache_wf(c),
        spec_resolution(c, module) is Initialize,
        callers >= 1,
    ensures
        spec_resolve_times(c, module, callers) == spec_resolve(c, module),
        spec_resolution(spec_resolve_times(c, module, callers), module) == Resolution::Wait(
            spec_resolution(c, module)->Initialize_0,
        ),
        spec_after_wait(spec_resolution(c, module)->Initialize_0, Err(error)) == Err::<
            usize,
            Seq<char>,
        >(error),
        spec_after_wait(spec_resolution(c, module)->Initialize_0, Ok(())) == Ok::<
            usize,
            Seq<char>,
        >(spec_resolution(c, module)->Initialize_0),
    decreases callers,
{
    lemma_one_initialization(c, module);
    if callers > 1 {
        lemma_waiters_share_one_attempt(c, module, (callers - 1) as nat, error);
    } else {
        assert(spec_resolve_times(c, module, 0) == c);
    }
}

/// Once the initialization of a module has succeeded, every caller is told
/// that the module is ready; once it has failed, the next caller is told to
/// initialize it.
pub proof fn lemma_after_initialization(c: CacheState, module: Seq<char>, ok: bool)
    requires
        spec_cache_wf(c),
        c.names.len() <= usize::MAX,
        spec_resolution(c, module) is Wait,
    ensures
        spec_resolution(
            spec_init_done(c, spec_resolution(c, module)->Wait_0 as int, ok),
            module,
        ) == if ok {
            Resolution::Ready(spec_resolution(c, module)->Wait_0)
        } else {
            Resolution::Initialize(spec_resolution(c, module)->Wait_0)
        },
{
    lemma_find_bounds(c.names, module, 0);
}

/// What is asked and noted about one module leaves every other module as
/// it is.
pub proof fn lemma_modules_are_independent(c: CacheState, module: Seq<char>, other: Seq<char>)
    requires
        spec_cache_wf(c),
        module != other,
        spec_find(c.names, other, 0) < c.names.len(),
    ensures
        spec_resolution(spec_resolve(c, module), other) == spec_resolution(c, other),
        forall|ok: bool|
            spec_resolution(
                #[trigger] spec_init_done(c, spec_find(c.names, module, 0), ok),
                other,
            ) == spec_resolution(c, other),
{
    let at = spec_find(c.names, other, 0);
    lemma_find_bounds(c.names, other, 0);
    lemma_find_bounds(c.names, module, 0);
    let d = spec_resolve(c, module);
    lemma_find_at(d.names, other, 0, at);
}

} // verus!
