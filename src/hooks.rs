use crate::error::{claims, lemma_guard_claimed_once, AsyncError};
use std::sync::atomic::{AtomicUsize, Ordering};
use vstd::prelude::*;

verus! {

/// An observer of errors of type `E`, run for its side effects (logging,
/// metrics) when such an error is dispatched.
pub trait AsyncErrorHook<E> {
    /// Called once per dispatch of an error of type `E`.
    fn on_error(&self, error: &AsyncError<E>);
}

/// The observers registered for one error type, in registration order, each
/// with the identity of its handle. No identity occurs twice.
pub struct HookRegistry<H> {
    ids: Vec<usize>,
    hooks: Vec<H>,
}

impl<H> HookRegistry<H> {
    /// The handle identities, in registration order.
    pub closed spec fn spec_ids(&self) -> Seq<usize> {
        self.ids@
    }

    /// The handles, in registration order.
    pub closed spec fn spec_hooks(&self) -> Seq<H> {
        self.hooks@
    }

    /// One identity per handle, and no identity twice.
    pub open spec fn wf(&self) -> bool {
        &&& self.spec_ids().len() == self.spec_hooks().len()
        &&& self.spec_ids().no_duplicates()
    }

    /// An empty registry.
    pub fn new() -> (r: Self)
        ensures
            r.wf(),
            r.spec_ids() == Seq::<usize>::empty(),
            r.spec_hooks() == Seq::<H>::empty(),
    {
        HookRegistry { ids: Vec::new(), hooks: Vec::new() }
    }

    /// The number of registered observers.
    pub fn len(&self) -> (r: usize)
        requires
            self.wf(),
        ensures
            r == self.spec_hooks().len(),
    {
        self.hooks.len()
    }

    /// Whether a handle with identity `id` is registered.
    pub fn contains(&self, id: usize) -> (r: bool)
        ensures
            r == self.spec_ids().contains(id),
    {
        let mut i: usize = 0;
        while i < self.ids.len()
            invariant
                0 <= i <= self.ids@.len(),
                forall|j: int| 0 <= j < i ==> self.ids@[j] != id,
            decreases self.ids@.len() - i,
        {
            if self.ids[i] == id {
                return true;
            }
            i = i + 1;
        }
        false
    }
}

/// The identities after registering `id`: unchanged if it is already there,
/// with `id` appended otherwise.
pub open spec fn after_register(ids: Seq<usize>, id: usize) -> Seq<usize> {
    if ids.contains(id) {
        ids
    } else {
        ids.push(id)
    }
}

/// Registers `hook`, whose handle has identity `id`. A handle already
/// registered (same identity, whatever its value) is ignored; a new one goes
/// last.
pub fn register_hook<H>(registry: &mut HookRegistry<H>, id: usize, hook: H)
    requires
        old(registry).wf(),
    ensures
        final(registry).wf(),
        final(registry).spec_ids() == after_register(old(registry).spec_ids(), id),
        old(registry).spec_ids().contains(id) ==> *final(registry) == *old(registry),
        !old(registry).spec_ids().contains(id) ==> {
            &&& final(registry).spec_ids() == old(registry).spec_ids().push(id)
            &&& final(registry).spec_hooks() == old(registry).spec_hooks().push(hook)
        },
{
    if !registry.contains(id) {
        registry.ids.push(id);
        registry.hooks.push(hook);
        proof {
            assert forall|i: int, j: int|
                0 <= i < j < registry.ids@.len() implies registry.ids@[i] != registry.ids@[j] by {
                if j == registry.ids@.len() - 1 {
                    assert(!old(registry).ids@.contains(id));
                    assert(old(registry).ids@[i] == registry.ids@[i]);
                }
            }
        }
    }
}

/// Registering the same handle twice leaves exactly one entry for it: the
/// second registration changes nothing.
pub proof fn lemma_register_twice(ids: Seq<usize>, id: usize)
    requires
        ids.no_duplicates(),
    ensures
        after_register(after_register(ids, id), id) == after_register(ids, id),
        after_register(ids, id).no_duplicates(),
        exists|k: int|
            0 <= k < after_register(ids, id).len() && after_register(ids, id)[k] == id && forall|
                j: int,
            |
                0 <= j < after_register(ids, id).len() && j != k ==> #[trigger] after_register(
                    ids,
                    id,
                )[j] != id,
{
    let once = after_register(ids, id);
    if !ids.contains(id) {
        assert(once[once.len() - 1] == id);
        assert forall|i: int, j: int| 0 <= i < j < once.len() implies once[i] != once[j] by {
            if j == once.len() - 1 {
                assert(ids[i] == once[i]);
            }
        }
    }
    let k = choose|k: int| 0 <= k < once.len() && once[k] == id;
    assert forall|j: int| 0 <= j < once.len() && j != k implies #[trigger] once[j] != id by {}
}

/// The registered observers, in registration order; a caller that wants a
/// snapshot clones it.
pub fn get_hooks<H>(registry: &HookRegistry<H>) -> (r: &Vec<H>)
    ensures
        r@ == registry.spec_hooks(),
{
    &registry.hooks
}

/// The single-flight guard of hook dispatch: at most one dispatch holds it.
pub struct DispatchSlot {
    busy: AtomicUsize,
}

impl DispatchSlot {
    /// A free slot.
    pub fn new() -> Self {
        DispatchSlot { busy: AtomicUsize::new(0) }
    }

    /// Takes the slot with one compare-and-exchange from free to held, and
    /// reports whether this call took it. No contract is stated: Verus does not
    /// track a std atomic's value. That overlapping calls behave as `claims`
    /// describes (the first on a free slot wins, the rest lose) is assumed from
    /// the atomicity of compare-and-exchange, not proved of this code.
    pub fn try_acquire(&self) -> bool {
        self.busy.compare_exchange(0, 1, Ordering::Acquire, Ordering::Relaxed).is_ok()
    }

    /// Frees the slot.
    pub fn release(&self) {
        self.busy.store(0, Ordering::Release);
    }
}

/// How many observers one dispatch runs: all of them if it took the slot,
/// none if it lost the race (it is dropped, not queued).
pub open spec fn dispatched(won: bool, n: nat) -> nat {
    if won {
        n
    } else {
        0
    }
}

/// Finishes a dispatch given the slot's answer: when `won`, runs every
/// observer in `hooks` on `error`, once each and in order, then frees the
/// slot; otherwise runs none and leaves the slot to the dispatch that holds
/// it. Returns how many observers ran.
pub fn run_dispatch<E, H: AsyncErrorHook<E>>(
    won: bool,
    slot: &DispatchSlot,
    hooks: &Vec<H>,
    error: &AsyncError<E>,
) -> (r: usize)
    ensures
        r == dispatched(won, hooks@.len() as nat),
{
    if !won {
        return 0;
    }
    let mut i: usize = 0;
    while i < hooks.len()
        invariant
            0 <= i <= hooks@.len(),
        decreases hooks@.len() - i,
    {
        hooks[i].on_error(error);
        i = i + 1;
    }
    slot.release();
    i
}

/// Tries to take `slot` and finishes the dispatch with `run_dispatch`: all
/// observers run if the slot was taken, none if another dispatch held it.
/// Returns how many observers ran.
pub fn invoke_hooks<E, H: AsyncErrorHook<E>>(
    slot: &DispatchSlot,
    hooks: &Vec<H>,
    error: &AsyncError<E>,
) -> (r: usize)
    ensures
        exists|won: bool| r == dispatched(won, hooks@.len() as nat),
{
    let won = slot.try_acquire();
    run_dispatch(won, slot, hooks, error)
}

/// In the model `claims` of the slot, of any number of dispatches that overlap
/// on a free slot, exactly one runs every registered observer and every other
/// runs none. That `DispatchSlot` follows the model is assumed, not tied to it
/// by any contract; what is proved of the code is `run_dispatch`.
pub proof fn lemma_single_flight(k: nat, n: nat)
    requires
        k >= 1,
    ensures
        claims(false, k).len() == k,
        dispatched(claims(false, k)[0], n) == n,
        forall|i: int| 1 <= i < k ==> dispatched(#[trigger] claims(false, k)[i], n) == 0,
{
    lemma_guard_claimed_once(k);
}

/// The words that open every report of the default observer.
pub open spec fn banner() -> Seq<char> {
    "AsyncError Hook Triggered"@
}

/// What the default observer writes for one error, after its header line.
pub open spec fn report_text(header: Seq<char>, context: Option<Seq<char>>, inner: Seq<char>) -> Seq<
    char,
> {
    let c = match context {
        Some(c) => c,
        None => "<none>"@,
    };
    header + "\n  Context: "@ + c + "\n  Inner error: "@ + inner
        + "\n------------------------------"@
}

/// The header line of the default observer: the banner alone, or, given a
/// time stamp, the stamp, a bar, then the banner.
pub fn hook_header(stamp: Option<&str>) -> (r: String)
    ensures
        r@ == match stamp {
            Some(t) => t@ + " | "@ + banner(),
            None => banner(),
        },
{
    proof {
        reveal_strlit("AsyncError Hook Triggered");
        reveal_strlit(" | ");
    }
    match stamp {
        Some(t) => {
            let mut out = t.to_string();
            out.append(" | ");
            out.append("AsyncError Hook Triggered");
            out
        },
        None => "AsyncError Hook Triggered".to_string(),
    }
}

/// The default observer's report: the header, the context (or `<none>`), and
/// the inner error's text, each on a line of its own, then a rule.
pub fn hook_report(header: &str, context: Option<&str>, inner_text: &str) -> (r: String)
    ensures
        r@ == report_text(
            header@,
            match context {
                Some(c) => Some(c@),
                None => None,
            },
            inner_text@,
        ),
{
    proof {
        reveal_strlit("\n  Context: ");
        reveal_strlit("<none>");
        reveal_strlit("\n  Inner error: ");
        reveal_strlit("\n------------------------------");
    }
    let mut out = header.to_string();
    out.append("\n  Context: ");
    match context {
        Some(c) => out.append(c),
        None => out.append("<none>"),
    }
    out.append("\n  Inner error: ");
    out.append(inner_text);
    out.append("\n------------------------------");
    out
}

} // verus!
