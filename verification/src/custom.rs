//! The finder that an application registers, and the adapter that makes a
//! finder of anything that knows where a code region's sections are.
//!
//! A [`Registry`] takes one finder, once. Registration goes in three steps
//! (claim the registry, store the finder, mark it complete), and a lookup
//! sees the finder only after the third. What holds when several
//! registrations take their steps in any order is shown in [`crate::race`].

use crate::memory::{Memory, MemoryView};
use crate::search::{locate, locate_outcome};
use crate::{FDEFinder, FDESearchResult};
use vstd::prelude::*;

verus! {

/// The registry had been claimed before: it keeps the finder it has, or
/// will have, and the one offered is dropped.
#[derive(Debug)]
pub struct SetCustomFDEFinderError(());

/// What a [`Registry`] stands for.
pub struct RegistryState<F> {
    /// A registration has claimed the registry.
    pub started: bool,
    /// The finder is stored and may be read.
    pub completed: bool,
    /// The finder, once stored.
    pub finder: Option<F>,
}

impl<F> RegistryState<F> {
    /// The registry that nothing has touched.
    pub open spec fn empty() -> Self {
        RegistryState { started: false, completed: false, finder: None }
    }

    /// A finder is stored only after a claim, and marked complete only once
    /// stored.
    pub open spec fn wf(self) -> bool {
        &&& self.finder is Some ==> self.started
        &&& self.completed ==> self.finder is Some
    }

    /// First step of a registration: the registry is claimed, and the
    /// registration has won it if no other had.
    pub open spec fn claim(self) -> (Self, bool) {
        (RegistryState { started: true, ..self }, !self.started)
    }

    /// Second step, for the registration that won the claim.
    pub open spec fn store(self, finder: F) -> Self {
        RegistryState { finder: Some(finder), ..self }
    }

    /// Third step: what is stored becomes visible.
    pub open spec fn complete(self) -> Self {
        RegistryState { completed: true, ..self }
    }

    /// The registry after a whole registration of `finder`.
    pub open spec fn register(self, finder: F) -> Self {
        if self.claim().1 {
            self.claim().0.store(finder).complete()
        } else {
            self
        }
    }

    /// The finder that a lookup sees.
    pub open spec fn observed(self) -> Option<F> {
        if self.completed {
            self.finder
        } else {
            None
        }
    }
}

/// Before any registration a lookup sees no finder.
pub proof fn lemma_nothing_before_registration<F>()
    ensures
        RegistryState::<F>::empty().wf(),
        RegistryState::<F>::empty().observed() is None,
{
}

/// After a whole registration a lookup sees a finder, and it is the one
/// that the registry had, or else the one that was offered.
pub proof fn lemma_registration_keeps_first<F>(registry: RegistryState<F>, finder: F)
    requires
        registry.wf(),
        registry.started ==> registry.completed,
    ensures
        registry.register(finder).wf(),
        registry.register(finder).observed() == if registry.started {
            registry.observed()
        } else {
            Some(finder)
        },
        registry.register(finder).observed() is Some,
{
}

/// The place of the one finder that an application registers.
pub struct Registry<F> {
    init_started: bool,
    init_completed: bool,
    finder: Option<F>,
}

impl<F> View for Registry<F> {
    type V = RegistryState<F>;

    closed spec fn view(&self) -> RegistryState<F> {
        RegistryState {
            started: self.init_started,
            completed: self.init_completed,
            finder: self.finder,
        }
    }
}

/// What a registration returns, given whether the registry had been claimed
/// before it.
pub fn registration_result(already_started: bool) -> (result: Result<(), SetCustomFDEFinderError>)
    ensures
        result is Err <==> already_started,
{
    if already_started {
        Err(SetCustomFDEFinderError(()))
    } else {
        Ok(())
    }
}

impl<F> Registry<F> {
    #[verifier::type_invariant]
    spec fn well_formed(self) -> bool {
        self@.wf()
    }

    /// A registry with no finder.
    pub fn new() -> (registry: Self)
        ensures
            registry@ == RegistryState::<F>::empty(),
    {
        Registry { init_started: false, init_completed: false, finder: None }
    }

    /// Claims the registry, and says whether it had been claimed before.
    fn claim(&mut self) -> (already_started: bool)
        ensures
            final(self)@ == old(self)@.claim().0,
            already_started == !old(self)@.claim().1,
    {
        proof {
            use_type_invariant(&*self);
        }
        let already_started = self.init_started;
        self.init_started = true;
        already_started
    }

    /// Stores the finder of the registration that won the claim.
    fn store(&mut self, finder: F)
        requires
            old(self)@.started,
            !old(self)@.completed,
        ensures
            final(self)@ == old(self)@.store(finder),
    {
        proof {
            use_type_invariant(&*self);
        }
        self.finder = Some(finder);
    }

    /// Makes the stored finder visible to lookups.
    fn complete(&mut self)
        requires
            old(self)@.finder is Some,
        ensures
            final(self)@ == old(self)@.complete(),
    {
        proof {
            use_type_invariant(&*self);
        }
        self.init_completed = true;
    }
}

/// Registers `fde_finder` as the application's finder. The first
/// registration succeeds; every later one fails and changes nothing.
pub fn set_custom_fde_finder<F>(registry: &mut Registry<F>, fde_finder: F) -> (result: Result<
    (),
    SetCustomFDEFinderError,
>)
    ensures
        result is Ok <==> !old(registry)@.started,
        final(registry)@ == old(registry)@.register(fde_finder),
        result is Ok ==> final(registry)@.observed() == Some(fde_finder),
        result is Err ==> final(registry)@ == old(registry)@,
        final(registry)@.wf(),
{
    proof {
        use_type_invariant(&*registry);
    }
    let result = registration_result(registry.claim());
    if result.is_ok() {
        registry.store(fde_finder);
        registry.complete();
    }
    proof {
        use_type_invariant(&*registry);
    }
    result
}

/// The registered finder; `None` until a registration is complete.
pub fn get_custom_fde_finder<F>(registry: &Registry<F>) -> (finder: Option<&F>)
    ensures
        registry@.wf(),
        match finder {
            Some(finder) => registry@.observed() == Some(*finder),
            None => registry@.observed() is None,
        },
{
    proof {
        use_type_invariant(registry);
    }
    if registry.init_completed {
        registry.finder.as_ref()
    } else {
        None
    }
}

/// The finder that looks up through whatever the application registered.
pub struct CustomFinder<'a, F>(&'a Registry<F>);

impl<'a, F> CustomFinder<'a, F> {
    /// The registry that this finder asks.
    pub closed spec fn registry(self) -> Registry<F> {
        *self.0
    }
}

/// The finder that asks `registry` at each lookup.
pub fn get_finder<'a, F>(registry: &'a Registry<F>) -> (finder: CustomFinder<'a, F>)
    ensures
        finder.registry() == *registry,
{
    CustomFinder(registry)
}

impl<'a, F: FDEFinder> FDEFinder for CustomFinder<'a, F> {
    /// Hands the lookup to the registered finder. Until a registration is
    /// complete there is none, and nothing is found.
    fn find_fde(&self, memory: &Memory<'_>, pc: usize) -> (result: Option<FDESearchResult>)
        ensures
            match self.registry()@.observed() {
                Some(finder) => call_ensures(F::find_fde, (&finder, memory, pc), result),
                None => result is None,
            },
    {
        match get_custom_fde_finder(self.0) {
            Some(finder) => finder.find_fde(memory, pc),
            None => None,
        }
    }
}

/// Something that knows where the sections of a code region are.
pub trait BaseAddressFinder {
    /// The base address of the code region that holds `pc`.
    fn find_text_base(&self, pc: usize) -> Option<usize>;

    /// The address of the index header, where known.
    fn find_eh_frame_hdr(&self) -> (address: Option<usize>)
        default_ensures
            address is None,
    {
        None
    }

    /// The address of the frame table, where known.
    fn find_eh_frame(&self) -> (address: Option<usize>)
        default_ensures
            address is None,
    {
        None
    }
}

/// Whether `result` is what a lookup of `pc` through `finder` may return:
/// nothing where `finder` gives no text base; else what the index header
/// that it names leads to, and where that is nothing, what the frame table
/// that it names leads to.
pub open spec fn found_from_bases<T: BaseAddressFinder>(
    finder: &T,
    memory: MemoryView,
    pc: usize,
    result: Option<FDESearchResult>,
) -> bool {
    exists|text: Option<usize>| #[trigger]
        call_ensures(T::find_text_base, (finder, pc), text) && match text {
            None => result is None,
            Some(text) => exists|eh_frame_hdr: Option<usize>| #[trigger]
                call_ensures(T::find_eh_frame_hdr, (finder,), eh_frame_hdr) && {
                    let first = locate_outcome(memory, pc, text, eh_frame_hdr, None);
                    if first is Some {
                        result == first
                    } else {
                        exists|eh_frame: Option<usize>| #[trigger]
                            call_ensures(T::find_eh_frame, (finder,), eh_frame) && result
                                == locate_outcome(memory, pc, text, None, eh_frame)
                    }
                },
        }
}

/// Whatever a lookup through the sections that `finder` names returns
/// covers `pc`.
pub proof fn lemma_found_from_bases_covers<T: BaseAddressFinder>(
    finder: &T,
    memory: MemoryView,
    pc: usize,
    result: Option<FDESearchResult>,
)
    requires
        found_from_bases(finder, memory, pc, result),
    ensures
        result matches Some(entry) ==> entry.fde.covers(pc as u64),
{
}

/// Looks up `pc` through the sections that `finder` names: by the index
/// header first, and by the frame table where that finds nothing.
pub fn find_fde_from_bases<T: BaseAddressFinder>(
    finder: &T,
    memory: &Memory<'_>,
    pc: usize,
) -> (result: Option<FDESearchResult>)
    ensures
        found_from_bases(finder, memory@, pc, result),
        result matches Some(entry) ==> entry.fde.covers(pc as u64),
{
    let text = match finder.find_text_base(pc) {
        Some(text) => text,
        None => { return None; },
    };
    let first = locate(memory, pc, text, finder.find_eh_frame_hdr(), None);
    if first.is_some() {
        return first;
    }
    locate(memory, pc, text, None, finder.find_eh_frame())
}

impl<T: BaseAddressFinder> FDEFinder for T {
    fn find_fde(&self, memory: &Memory<'_>, pc: usize) -> (result: Option<FDESearchResult>)
        ensures
            found_from_bases(self, memory@, pc, result),
            result matches Some(entry) ==> entry.fde.covers(pc as u64),
    {
        find_fde_from_bases(self, memory, pc)
    }
}

} // verus!
