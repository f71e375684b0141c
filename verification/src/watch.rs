use crate::address::{texts, url_path, Address};
use crate::text::strings;
use vstd::prelude::*;

verus! {

/// Why a request to the watch service failed.
#[derive(Clone, Copy, Debug, PartialEq, Eq, Structural)]
pub enum WatchError {
    /// The root is not watched: the watcher refused it, or the service has been shut down.
    CannotWatch,
    /// The root is still watched: the watcher refused to let go of it.
    CannotUnwatch,
}

/// The watch service as contracts see it: the roots it watches, oldest first, and whether it
/// has been shut down.
pub struct WatchState {
    pub roots: Seq<Seq<char>>,
    pub stopped: bool,
}

/// `roots` without `root`.
pub open spec fn without(roots: Seq<Seq<char>>, root: Seq<char>) -> Seq<Seq<char>> {
    roots.filter(|other: Seq<char>| other != root)
}

impl WatchState {
    /// No root is registered twice, and a service that was shut down watches nothing.
    pub open spec fn wf(self) -> bool {
        &&& self.roots.no_duplicates()
        &&& self.stopped ==> self.roots.len() == 0
    }

    /// The state of a service that was just made.
    pub open spec fn fresh() -> WatchState {
        WatchState { roots: Seq::empty(), stopped: false }
    }

    pub open spec fn watches(self, root: Seq<char>) -> bool {
        self.roots.contains(root)
    }

    /// Whether registering `root` takes a call to the watcher: not after shutdown, and not for
    /// a root that is watched already.
    pub open spec fn must_watch(self, root: Seq<char>) -> bool {
        !self.stopped && !self.watches(root)
    }

    /// The state after a request to register `root`; `accepted` is the watcher's answer, where
    /// it was asked.
    pub open spec fn register(self, root: Seq<char>, accepted: bool) -> WatchState {
        if self.must_watch(root) && accepted {
            WatchState { roots: self.roots.push(root), stopped: self.stopped }
        } else {
            self
        }
    }

    pub open spec fn register_result(self, root: Seq<char>, accepted: bool) -> Result<
        (),
        WatchError,
    > {
        if self.stopped || (!self.watches(root) && !accepted) {
            Err(WatchError::CannotWatch)
        } else {
            Ok(())
        }
    }

    /// Whether unregistering `root` takes a call to the watcher: only for a watched root.
    pub open spec fn must_unwatch(self, root: Seq<char>) -> bool {
        self.watches(root)
    }

    /// The state after a request to unregister `root`; `released` is the watcher's answer,
    /// where it was asked.
    pub open spec fn unregister(self, root: Seq<char>, released: bool) -> WatchState {
        if self.must_unwatch(root) && released {
            WatchState { roots: without(self.roots, root), stopped: self.stopped }
        } else {
            self
        }
    }

    pub open spec fn unregister_result(self, root: Seq<char>, released: bool) -> Result<
        (),
        WatchError,
    > {
        if self.must_unwatch(root) && !released {
            Err(WatchError::CannotUnwatch)
        } else {
            Ok(())
        }
    }

    /// The paths that shutdown hands to the watcher to let go of, one for each root, oldest
    /// first.
    pub open spec fn shutdown_calls(self) -> Seq<Seq<char>> {
        self.roots.map_values(|root: Seq<char>| url_path(root))
    }

    /// The state after shutdown.
    pub open spec fn shutdown(self) -> WatchState {
        WatchState { roots: Seq::empty(), stopped: true }
    }
}

/// Taking `root` out of a list without repetitions leaves a list without repetitions that holds
/// every other root of the list and not `root`.
pub proof fn lemma_without(roots: Seq<Seq<char>>, root: Seq<char>)
    requires
        roots.no_duplicates(),
    ensures
        without(roots, root).no_duplicates(),
        !without(roots, root).contains(root),
        forall|other: Seq<char>|
            other != root ==> (#[trigger] without(roots, root).contains(other) <==> roots.contains(
                other,
            )),
        !roots.contains(root) ==> without(roots, root) == roots,
    decreases roots.len(),
{
    reveal(Seq::filter);
    if roots.len() > 0 {
        let front = roots.drop_last();
        let last = roots.last();
        let kept = without(front, root);
        lemma_without(front, root);
        if last != root {
            lemma_push_fresh(kept, last);
            assert forall|other: Seq<char>| #[trigger]
                kept.push(last).contains(other) <==> (kept.contains(other) || other == last) by {
                lemma_push_holds(kept, last, other);
            }
        }
    }
}

/// Every step of the service keeps its state well formed.
pub proof fn lemma_steps_keep_wf(state: WatchState, root: Seq<char>, answer: bool)
    requires
        state.wf(),
    ensures
        WatchState::fresh().wf(),
        state.register(root, answer).wf(),
        state.unregister(root, answer).wf(),
        state.shutdown().wf(),
{
    lemma_without(state.roots, root);
}

/// A root is watched from its first successful registration until it is successfully
/// unregistered or the service is shut down, and at no other time: a call that the watcher
/// refuses changes nothing, and no step touches another root.
pub proof fn lemma_watched_root_lifecycle(state: WatchState, root: Seq<char>, other: Seq<char>)
    requires
        state.wf(),
        other != root,
    ensures
        !WatchState::fresh().watches(root),
        !state.stopped ==> state.register(root, true).watches(root),
        state.register(root, false) == state,
        !state.unregister(root, true).watches(root),
        state.unregister(root, false) == state,
        !state.shutdown().watches(root),
        state.register(root, true).watches(other) == state.watches(other),
        state.unregister(root, true).watches(other) == state.watches(other),
{
    lemma_without(state.roots, root);
    lemma_push_holds(state.roots, root, root);
    lemma_push_holds(state.roots, root, other);
}

/// Registering a root with a fresh service and unregistering it at once leaves the registry
/// empty, and takes exactly one call to let go of the root: the unregistration needs one, and
/// once it is done a further one needs none.
pub proof fn lemma_register_then_unregister(root: Seq<char>)
    ensures
        WatchState::fresh().must_watch(root),
        WatchState::fresh().register(root, true).must_unwatch(root),
        WatchState::fresh().register(root, true).unregister(root, true) == WatchState::fresh(),
        !WatchState::fresh().register(root, true).unregister(root, true).must_unwatch(root),
{
    lemma_register_then_unregister_restores(WatchState::fresh(), root);
}

/// Registering a root that is not watched and unregistering it at once gives back the state
/// before, whatever else is watched.
pub proof fn lemma_register_then_unregister_restores(state: WatchState, root: Seq<char>)
    requires
        state.wf(),
        state.must_watch(root),
    ensures
        state.register(root, true).register_result(root, true) == Ok::<(), WatchError>(()),
        state.register(root, true).must_unwatch(root),
        state.register(root, true).unregister(root, true) == state,
        !state.register(root, true).unregister(root, true).must_unwatch(root),
{
    lemma_push_holds(state.roots, root, root);
    lemma_without_pushed(state.roots, root);
    lemma_without(state.roots, root);
}

/// Shutting down twice is safe: the first shutdown empties the registry, and the second one
/// changes nothing and hands out no call.
pub proof fn lemma_shutdown_twice(state: WatchState)
    ensures
        state.shutdown().roots.len() == 0,
        state.shutdown().shutdown() == state.shutdown(),
        state.shutdown().shutdown_calls().len() == 0,
{
}

/// After shutdown the service is inert: a registration fails at once, without a call to the
/// watcher and without a change.
pub proof fn lemma_register_after_shutdown(state: WatchState, root: Seq<char>, accepted: bool)
    ensures
        !state.shutdown().must_watch(root),
        state.shutdown().register_result(root, accepted) == Err::<(), WatchError>(
            WatchError::CannotWatch,
        ),
        state.shutdown().register(root, accepted) == state.shutdown(),
{
}

/// Registering a watched root again changes nothing and takes no call to the watcher, so
/// that two registrations and one unregistration end where one registration and one
/// unregistration end.
pub proof fn lemma_register_twice(state: WatchState, root: Seq<char>, again: bool)
    requires
        state.wf(),
    ensures
        !state.register(root, true).must_watch(root),
        state.register(root, true).register(root, again) == state.register(root, true),
        state.register(root, true).register(root, true).unregister(root, true) == state.register(
            root,
            true,
        ).unregister(root, true),
        state.watches(root) ==> state.register(root, again) == state && state.register_result(
            root,
            again,
        ) == Ok::<(), WatchError>(()),
{
    lemma_push_holds(state.roots, root, root);
}

/// The watch service: the registry of watched roots, and whether the service was shut down.
///
/// The service decides; it does not call the operating system's watcher itself. A request is
/// served in two steps. The caller first asks which call the request needs ([`watch_needed`],
/// [`unwatch_needed`]), makes that call, and then completes the request with the watcher's
/// answer ([`start_folder_watch`], [`stop_folder_watch`]). Both steps of a request are to be
/// made under one lock.
///
/// [`watch_needed`]: NativeFs::watch_needed
/// [`unwatch_needed`]: NativeFs::unwatch_needed
/// [`start_folder_watch`]: NativeFs::start_folder_watch
/// [`stop_folder_watch`]: NativeFs::stop_folder_watch
pub struct NativeFs {
    watching: Vec<Address>,
    stopped: bool,
}

impl View for NativeFs {
    type V = WatchState;

    closed spec fn view(&self) -> WatchState {
        WatchState { roots: texts(self.watching@), stopped: self.stopped }
    }
}

impl NativeFs {
    #[verifier::type_invariant]
    spec fn well_formed(self) -> bool {
        self@.wf()
    }

    /// A service that watches nothing yet.
    pub fn new() -> (res: NativeFs)
        ensures
            res@ == WatchState::fresh(),
    {
        let res = NativeFs { watching: Vec::new(), stopped: false };
        assert(res@.roots =~= Seq::empty());
        res
    }

    /// Whether `folder_uri` is a watched root.
    pub fn is_watching(&self, folder_uri: &Address) -> (res: bool)
        ensures
            res == self@.watches(folder_uri@),
    {
        let mut i: usize = 0;
        while i < self.watching.len()
            invariant
                i <= self.watching.len(),
                forall|j: int| 0 <= j < i ==> texts(self.watching@)[j] != folder_uri@,
            decreases self.watching.len() - i,
        {
            if self.watching[i].same_as(folder_uri) {
                assert(texts(self.watching@)[i as int] == folder_uri@);
                return true;
            }
            i += 1;
        }
        false
    }

    /// Whether the service was shut down.
    pub fn is_stopped(&self) -> (res: bool)
        ensures
            res == self@.stopped,
    {
        self.stopped
    }

    /// The number of watched roots.
    pub fn watched_count(&self) -> (res: usize)
        ensures
            res == self@.roots.len(),
    {
        self.watching.len()
    }

    /// First step of registering `folder_uri`: the path to hand to the watcher, to be watched
    /// with all that lies below it, or `None` where no call is to be made.
    pub fn watch_needed(&self, folder_uri: &Address) -> (res: Option<String>)
        ensures
            self@.wf(),
            res is Some <==> self@.must_watch(folder_uri@),
            res matches Some(path) ==> path@ == url_path(folder_uri@),
    {
        proof {
            use_type_invariant(self);
        }
        if self.stopped || self.is_watching(folder_uri) {
            None
        } else {
            Some(folder_uri.path().to_string())
        }
    }

    /// Second step of registering `folder_uri`. `accepted` tells whether the watcher took the
    /// path that [`watch_needed`](NativeFs::watch_needed) gave; it is not looked at where no call
    /// was needed.
    ///
    /// A root that the watcher took is added to the registry, behind the others. A root that is
    /// watched already stays registered once. After shutdown nothing is registered any more.
    pub fn start_folder_watch(&mut self, folder_uri: Address, accepted: bool) -> (res: Result<
        (),
        WatchError,
    >)
        ensures
            final(self)@ == old(self)@.register(folder_uri@, accepted),
            res == old(self)@.register_result(folder_uri@, accepted),
            final(self)@.wf(),
    {
        proof {
            use_type_invariant(&*self);
        }
        if self.stopped {
            return Err(WatchError::CannotWatch);
        }
        if self.is_watching(&folder_uri) {
            return Ok(());
        }
        if !accepted {
            return Err(WatchError::CannotWatch);
        }
        let mut watching: Vec<Address> = Vec::new();
        std::mem::swap(&mut self.watching, &mut watching);
        proof {
            assert(texts(watching@.push(folder_uri)) == texts(watching@).push(folder_uri@));
        }
        watching.push(folder_uri);
        self.watching = watching;
        Ok(())
    }

    /// First step of unregistering `folder_uri`: the path to hand to the watcher to let go of,
    /// or `None` where no call is to be made.
    pub fn unwatch_needed(&self, folder_uri: &Address) -> (res: Option<String>)
        ensures
            self@.wf(),
            res is Some <==> self@.must_unwatch(folder_uri@),
            res matches Some(path) ==> path@ == url_path(folder_uri@),
    {
        proof {
            use_type_invariant(self);
        }
        if self.is_watching(folder_uri) {
            Some(folder_uri.path().to_string())
        } else {
            None
        }
    }

    /// Second step of unregistering `folder_uri`. `released` tells whether the watcher let go
    /// of the path that [`unwatch_needed`](NativeFs::unwatch_needed) gave; it is not looked at
    /// where no call was needed.
    ///
    /// A root that the watcher let go of leaves the registry. A root that was not registered is
    /// no error.
    pub fn stop_folder_watch(&mut self, folder_uri: &Address, released: bool) -> (res: Result<
        (),
        WatchError,
    >)
        ensures
            final(self)@ == old(self)@.unregister(folder_uri@, released),
            res == old(self)@.unregister_result(folder_uri@, released),
            final(self)@.wf(),
    {
        proof {
            use_type_invariant(&*self);
        }
        if !self.is_watching(folder_uri) {
            return Ok(());
        }
        if !released {
            return Err(WatchError::CannotUnwatch);
        }
        let ghost roots = texts(self.watching@);
        let ghost keep = |other: Seq<char>| other != folder_uri@;
        let mut kept: Vec<Address> = Vec::new();
        let mut i: usize = 0;
        while i < self.watching.len()
            invariant
                i <= self.watching.len(),
                roots == texts(self.watching@),
                keep == |other: Seq<char>| other != folder_uri@,
                texts(kept@) == roots.take(i as int).filter(keep),
            decreases self.watching.len() - i,
        {
            proof {
                roots.lemma_take_succ_push(i as int);
                roots.take(i as int).lemma_filter_push(roots[i as int], keep);
            }
            if !self.watching[i].same_as(folder_uri) {
                kept.push(self.watching[i].clone());
            }
            i += 1;
        }
        proof {
            assert(roots.take(self.watching.len() as int) == roots);
            lemma_without(roots, folder_uri@);
        }
        self.watching = kept;
        Ok(())
    }

    /// Shuts the service down: the registry is emptied, and nothing can be registered any
    /// more. The result holds the paths to hand to the watcher to let go of, one for each root
    /// that was watched, oldest first. A second shutdown finds nothing to do.
    pub fn stop_watching_all(&mut self) -> (res: Vec<String>)
        ensures
            final(self)@ == old(self)@.shutdown(),
            strings(res@) == old(self)@.shutdown_calls(),
            final(self)@.wf(),
    {
        let ghost roots = texts(self.watching@);
        let ghost path_of = |root: Seq<char>| url_path(root);
        let mut calls: Vec<String> = Vec::new();
        let mut i: usize = 0;
        while i < self.watching.len()
            invariant
                i <= self.watching.len(),
                roots == texts(self.watching@),
                path_of == |root: Seq<char>| url_path(root),
                strings(calls@) == roots.take(i as int).map_values(path_of),
            decreases self.watching.len() - i,
        {
            proof {
                roots.lemma_map_take_succ(path_of, i as int);
            }
            calls.push(self.watching[i].path().to_string());
            i += 1;
        }
        self.watching = Vec::new();
        self.stopped = true;
        assert(self@.roots =~= Seq::empty());
        calls
    }
}

/// Adding a root and taking it out again is taking it out.
proof fn lemma_without_pushed(roots: Seq<Seq<char>>, root: Seq<char>)
    ensures
        without(roots.push(root), root) == without(roots, root),
{
    reveal(Seq::filter);
    assert(roots.push(root).drop_last() == roots);
}

/// What a list holds after a root was added: the root, and what it held before.
proof fn lemma_push_holds(roots: Seq<Seq<char>>, root: Seq<char>, other: Seq<char>)
    ensures
        roots.push(root).contains(other) <==> (roots.contains(other) || other == root),
{
    let pushed = roots.push(root);
    if roots.contains(other) {
        let i = choose|i: int| 0 <= i < roots.len() && roots[i] == other;
        assert(pushed[i] == other);
    }
    if other == root {
        assert(pushed[roots.len() as int] == other);
    }
}

/// A list without repetitions stays one when a root that it does not hold is added.
proof fn lemma_push_fresh(roots: Seq<Seq<char>>, root: Seq<char>)
    requires
        roots.no_duplicates(),
        !roots.contains(root),
    ensures
        roots.push(root).no_duplicates(),
{
}

} // verus!
