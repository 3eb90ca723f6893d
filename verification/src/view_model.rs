//! The activity state machine: a generic view model that binds an
//! equality-comparable subject to an inner model and sequences activation,
//! deactivation and reloading.
//!
//! Every operation that swaps the subject or the inner model routes the
//! machine through the `Loading` state first, so inner-model side effects
//! never mix data from two subjects. The inner model's lifecycle hooks are
//! total: they record the state they were asked to enter and return. For
//! the proofs, the view model also keeps a ghost trace of every hook call
//! it made, together with the subject that was bound at that moment.
//!
//! An absent inner model is a valid state for every operation alike: the
//! state still changes, and only the hook call is skipped.

use vstd::prelude::*;
use vstd::std_specs::cmp::PartialEqSpec;

verus! {

/// Marker capability for the values a view model may bind as its subject.
pub trait BaseSubjectType {}

/// The lifecycle phase a view model (or its inner model) is in.
#[derive(Debug, Clone, Copy, PartialEq, Eq, Structural)]
pub enum ActivityState {
    Inactive,
    Loading,
    Active,
}

/// One recorded lifecycle hook call: which state the hook was asked to
/// enter, and which subject was bound when it ran.
pub struct HookEvent<T> {
    pub target: ActivityState,
    pub subject: Option<T>,
}

/// The companion object a view model owns: it mirrors the view model's
/// state and must never diverge from it while the hooks are in charge.
#[derive(Debug, Clone, Copy)]
pub struct InnerModel<T> {
    pub state: ActivityState,
    pub subject: Option<T>,
}

impl<T> InnerModel<T> {
    /// A fresh inner model: inactive, with nothing bound.
    pub fn new() -> (r: InnerModel<T>)
        ensures
            r == (InnerModel::<T> { state: ActivityState::Inactive, subject: None }),
    {
        InnerModel { state: ActivityState::Inactive, subject: None }
    }

    /// Activation hook: records that the model was switched to `Active`.
    #[allow(non_snake_case)]
    pub fn InnerActivate(&mut self)
        ensures
            *final(self) == (InnerModel { state: ActivityState::Active, ..*old(self) }),
    {
        self.state = ActivityState::Active;
    }

    /// Deactivation hook: records that the model was switched to
    /// `Inactive`.
    #[allow(non_snake_case)]
    pub fn InnerDeactivate(&mut self)
        ensures
            *final(self) == (InnerModel { state: ActivityState::Inactive, ..*old(self) }),
    {
        self.state = ActivityState::Inactive;
    }

    /// Loading hook: records that the model was switched to `Loading`.
    #[allow(non_snake_case)]
    pub fn InnerLoading(&mut self)
        ensures
            *final(self) == (InnerModel { state: ActivityState::Loading, ..*old(self) }),
    {
        self.state = ActivityState::Loading;
    }
}

impl<T: PartialEq> PartialEq for InnerModel<T> {
    fn eq(&self, other: &InnerModel<T>) -> (r: bool) {
        self.state == other.state && self.subject == other.subject
    }
}

impl<T: PartialEq> vstd::std_specs::cmp::PartialEqSpecImpl for InnerModel<T> {
    open spec fn obeys_eq_spec() -> bool {
        T::obeys_eq_spec()
    }

    open spec fn eq_spec(&self, other: &InnerModel<T>) -> bool {
        self.state == other.state && vstd::std_specs::cmp::PartialEqSpec::eq_spec(
            &self.subject,
            &other.subject,
        )
    }
}

/// The mathematical value of a [`ViewModel`]: its state, its subject, its
/// inner model, and the trace of every hook call made so far.
#[verifier::ext_equal]
pub struct VmModel<T> {
    pub state: ActivityState,
    pub subject: Option<T>,
    pub inner: Option<InnerModel<T>>,
    pub calls: Seq<HookEvent<T>>,
}

/// The generic activity state machine. It is the sole owner of its inner
/// model; each hook call temporarily takes the model out and puts it back,
/// so no other code can observe it mid-call.
#[derive(Clone)]
pub struct ViewModel<T> {
    state: ActivityState,
    subject: Option<T>,
    inner: Option<InnerModel<T>>,
    calls: Ghost<Seq<HookEvent<T>>>,
}

impl<T> View for ViewModel<T> {
    type V = VmModel<T>;

    closed spec fn view(&self) -> VmModel<T> {
        VmModel {
            state: self.state,
            subject: self.subject,
            inner: self.inner,
            calls: self.calls@,
        }
    }
}

/// What `activate` does: from `Inactive` or `Loading` the machine becomes
/// `Active` and, if an inner model is owned, runs its activation hook (and
/// records it); from `Active` it is a no-op.
pub open spec fn vm_activate<T>(v: VmModel<T>) -> VmModel<T> {
    if v.state is Inactive || v.state is Loading {
        match v.inner {
            Some(im) => VmModel {
                state: ActivityState::Active,
                inner: Some(InnerModel { state: ActivityState::Active, ..im }),
                calls: v.calls.push(
                    HookEvent { target: ActivityState::Active, subject: v.subject },
                ),
                ..v
            },
            None => VmModel { state: ActivityState::Active, ..v },
        }
    } else {
        v
    }
}

/// What `deactivate` does: from `Active` or `Loading` the machine becomes
/// `Inactive` and, if an inner model is owned, runs its deactivation hook;
/// from `Inactive` it is a no-op.
pub open spec fn vm_deactivate<T>(v: VmModel<T>) -> VmModel<T> {
    if v.state is Active || v.state is Loading {
        match v.inner {
            Some(im) => VmModel {
                state: ActivityState::Inactive,
                inner: Some(InnerModel { state: ActivityState::Inactive, ..im }),
                calls: v.calls.push(
                    HookEvent { target: ActivityState::Inactive, subject: v.subject },
                ),
                ..v
            },
            None => VmModel { state: ActivityState::Inactive, ..v },
        }
    } else {
        v
    }
}

/// What `loading` does: from `Active` or `Inactive` the machine becomes
/// `Loading` and, if an inner model is owned, runs its loading hook; from
/// `Loading` it is a no-op.
pub open spec fn vm_loading<T>(v: VmModel<T>) -> VmModel<T> {
    if v.state is Active || v.state is Inactive {
        match v.inner {
            Some(im) => VmModel {
                state: ActivityState::Loading,
                inner: Some(InnerModel { state: ActivityState::Loading, ..im }),
                calls: v.calls.push(
                    HookEvent { target: ActivityState::Loading, subject: v.subject },
                ),
                ..v
            },
            None => VmModel { state: ActivityState::Loading, ..v },
        }
    } else {
        v
    }
}

/// What `change_subject` does. A no-op when the new subject equals the
/// current one and the machine is not `Loading`. Otherwise: an `Active`
/// machine is first deactivated and put into `Loading` (both hooks run
/// while the old subject is still bound); the subject is then replaced;
/// and if the machine was `Active` or `Loading` before, it is activated
/// again, now with the new subject bound.
pub open spec fn vm_change_subject<T: PartialEq>(v: VmModel<T>, s: Option<T>) -> VmModel<T> {
    if v.subject.eq_spec(&s) && !(v.state is Loading) {
        v
    } else {
        let disabled = if v.state is Active {
            vm_loading(vm_deactivate(v))
        } else {
            v
        };
        let replaced = VmModel { subject: s, ..disabled };
        if v.state is Active || v.state is Loading {
            vm_activate(replaced)
        } else {
            replaced
        }
    }
}

/// What `change_model` does. A no-op when no subject is bound, and also
/// when the proposed model equals the current one and the machine is not
/// `Loading`. Otherwise: an `Active` or `Inactive` machine is first put
/// into `Loading`; the inner model is then replaced; and the prior state
/// is restored — `Active` by activating, `Inactive` by deactivating, while
/// a machine that was already `Loading` stays `Loading`.
pub open spec fn vm_change_model<T: PartialEq>(
    v: VmModel<T>,
    m: Option<InnerModel<T>>,
) -> VmModel<T> {
    if v.subject is None {
        v
    } else if !v.inner.eq_spec(&m) || v.state is Loading {
        let disabled = if v.state is Active || v.state is Inactive {
            vm_loading(v)
        } else {
            v
        };
        let replaced = VmModel { inner: m, ..disabled };
        match v.state {
            ActivityState::Active => vm_activate(replaced),
            ActivityState::Inactive => vm_deactivate(replaced),
            ActivityState::Loading => replaced,
        }
    } else {
        v
    }
}

impl<T> ViewModel<T> {
    /// A fresh view model: inactive, no subject bound, owning whatever
    /// inner model the caller supplied, with an empty hook trace.
    pub fn new(inner_model: Option<InnerModel<T>>) -> (r: ViewModel<T>)
        ensures
            r@ == (VmModel {
                state: ActivityState::Inactive,
                subject: None,
                inner: inner_model,
                calls: Seq::<HookEvent<T>>::empty(),
            }),
    {
        let r = ViewModel {
            subject: None,
            state: ActivityState::Inactive,
            inner: inner_model,
            calls: Ghost(Seq::empty()),
        };
        assert(r@ =~= (VmModel {
            state: ActivityState::Inactive,
            subject: None,
            inner: inner_model,
            calls: Seq::<HookEvent<T>>::empty(),
        }));
        r
    }

    /// The current lifecycle phase.
    pub fn state(&self) -> (r: ActivityState)
        ensures
            r == self@.state,
    {
        self.state
    }

    /// Read access to the currently bound subject.
    pub fn subject(&self) -> (r: &Option<T>)
        ensures
            *r == self@.subject,
    {
        &self.subject
    }

    /// Read access to the currently owned inner model.
    pub fn inner(&self) -> (r: &Option<InnerModel<T>>)
        ensures
            *r == self@.inner,
    {
        &self.inner
    }
}

impl<T: PartialEq> ViewModel<T> {
    /// Switches the machine to `Active` unless it already is, running the
    /// inner activation hook if an inner model is owned.
    pub fn activate(&mut self)
        ensures
            final(self)@ == vm_activate(old(self)@),
    {
        if self.state == ActivityState::Inactive || self.state == ActivityState::Loading {
            self.state = ActivityState::Active;
            if self.inner.is_some() {
                let mut inner_model = self.inner.take().unwrap();
                inner_model.InnerActivate();
                self.inner = Some(inner_model);
                self.calls = Ghost(
                    self.calls@.push(
                        HookEvent { target: ActivityState::Active, subject: self.subject },
                    ),
                );
            }
        }
        assert(self@ =~= vm_activate(old(self)@));
    }

    /// Switches the machine to `Inactive` unless it already is, running
    /// the inner deactivation hook if an inner model is owned.
    pub fn deactivate(&mut self)
        ensures
            final(self)@ == vm_deactivate(old(self)@),
    {
        if self.state == ActivityState::Active || self.state == ActivityState::Loading {
            self.state = ActivityState::Inactive;
            if self.inner.is_some() {
                let mut inner_model = self.inner.take().unwrap();
                inner_model.InnerDeactivate();
                self.inner = Some(inner_model);
                self.calls = Ghost(
                    self.calls@.push(
                        HookEvent { target: ActivityState::Inactive, subject: self.subject },
                    ),
                );
            }
        }
        assert(self@ =~= vm_deactivate(old(self)@));
    }

    /// Switches the machine to `Loading` unless it already is, running the
    /// inner loading hook if an inner model is owned.
    pub fn loading(&mut self)
        ensures
            final(self)@ == vm_loading(old(self)@),
    {
        if self.state == ActivityState::Active || self.state == ActivityState::Inactive {
            self.state = ActivityState::Loading;
            if self.inner.is_some() {
                let mut inner_model = self.inner.take().unwrap();
                inner_model.InnerLoading();
                self.inner = Some(inner_model);
                self.calls = Ghost(
                    self.calls@.push(
                        HookEvent { target: ActivityState::Loading, subject: self.subject },
                    ),
                );
            }
        }
        assert(self@ =~= vm_loading(old(self)@));
    }

    /// Replaces the bound subject, routing the swap through `Loading` as
    /// [`vm_change_subject`] describes. The contract is exact for every
    /// subject type whose equality is honest (`obeys_eq_spec`).
    pub fn change_subject(&mut self, subject: Option<T>)
        ensures
            T::obeys_eq_spec() ==> final(self)@ == vm_change_subject(old(self)@, subject),
    {
        if !(self.subject == subject) || self.state == ActivityState::Loading {
            let was_active = self.state;
            if self.state == ActivityState::Active {
                self.deactivate();
                self.loading();
            }
            self.subject = subject;
            match was_active {
                ActivityState::Active | ActivityState::Loading => {
                    self.activate();
                },
                _ => {},
            }
            proof {
                if T::obeys_eq_spec() {
                    assert(self@ =~= vm_change_subject(old(self)@, subject));
                }
            }
        }
    }

    /// Replaces the owned inner model, routing the swap through `Loading`
    /// as [`vm_change_model`] describes. With no subject bound this is a
    /// guaranteed no-op, whatever the proposed model.
    pub fn change_model(&mut self, new_model: Option<InnerModel<T>>)
        ensures
            T::obeys_eq_spec() ==> final(self)@ == vm_change_model(old(self)@, new_model),
            old(self)@.subject is None ==> final(self)@ == old(self)@,
    {
        if self.subject.is_none() {
            return ;
        }
        if !(self.inner == new_model) || self.state == ActivityState::Loading {
            let previous_state = self.state;
            match self.state {
                ActivityState::Active | ActivityState::Inactive => {
                    self.loading();
                },
                _ => {},
            }
            self.inner = new_model;
            match previous_state {
                ActivityState::Active => {
                    self.activate();
                },
                ActivityState::Inactive => {
                    self.deactivate();
                },
                _ => {},
            }
            proof {
                if T::obeys_eq_spec() {
                    assert(self@ =~= vm_change_model(old(self)@, new_model));
                }
            }
        }
    }
}

/// The trait a consumer layer programs the view model against: full
/// behaviour…
pub trait IModel {
    type SubjectType;

    fn change_model(&mut self, new_model: Option<InnerModel<Self::SubjectType>>);

    fn change_subject(&mut self, subject: Option<Self::SubjectType>);

    fn activate(&mut self);

    fn deactivate(&mut self);

    fn loading(&mut self);
}

/// …and bare state transitions.
pub trait StateTransition {
    fn activate(&mut self);

    fn deactivate(&mut self);

    fn loading(&mut self);
}

impl<T: PartialEq> IModel for ViewModel<T> {
    type SubjectType = T;

    fn change_model(&mut self, new_model: Option<InnerModel<T>>) {
        self.change_model(new_model);
    }

    fn change_subject(&mut self, subject: Option<T>) {
        self.change_subject(subject);
    }

    fn activate(&mut self) {
        self.activate();
    }

    fn deactivate(&mut self) {
        self.deactivate();
    }

    fn loading(&mut self) {
        self.loading();
    }
}

impl<T: PartialEq> StateTransition for InnerModel<T> {
    fn activate(&mut self) {
        self.InnerActivate();
    }

    fn deactivate(&mut self) {
        self.InnerDeactivate();
    }

    fn loading(&mut self) {
        self.InnerLoading();
    }
}

/// Law: every subject swap passes through `Loading` before the new
/// subject can be observed as `Active`. For a swap to a genuinely
/// different subject, the hook calls the swap appends are: every
/// activation hook runs with the new subject bound, every other hook runs
/// with the old subject bound, and all of the latter complete before any
/// activation begins. In particular, a machine that was `Active` appends
/// exactly deactivate-then-load on the old subject, then activate on the
/// new one (when it owns an inner model).
pub proof fn lemma_subject_swap_passes_through_loading<T: PartialEq>(v: VmModel<T>, s2: Option<T>)
    requires
        !v.subject.eq_spec(&s2),
    ensures
        ({
            let w = vm_change_subject(v, s2);
            let delta = w.calls.skip(v.calls.len() as int);
            &&& w.calls.take(v.calls.len() as int) == v.calls
            &&& forall|i: int|
                #![auto]
                0 <= i < delta.len() && delta[i].target is Active ==> delta[i].subject == s2
            &&& forall|i: int|
                #![auto]
                0 <= i < delta.len() && !(delta[i].target is Active) ==> delta[i].subject
                    == v.subject
            &&& forall|i: int, j: int|
                #![auto]
                0 <= i < delta.len() && 0 <= j < delta.len() && !(delta[i].target is Active) && (
                delta[j].target is Active) ==> i < j
            &&& v.state is Active && v.inner is Some ==> delta =~= seq![
                HookEvent { target: ActivityState::Inactive, subject: v.subject },
                HookEvent { target: ActivityState::Loading, subject: v.subject },
                HookEvent { target: ActivityState::Active, subject: s2 },
            ]
        }),
{
    let w = vm_change_subject(v, s2);
    let delta = w.calls.skip(v.calls.len() as int);
    match v.state {
        ActivityState::Active => {
            if v.inner is Some {
                assert(delta =~= seq![
                    HookEvent { target: ActivityState::Inactive, subject: v.subject },
                    HookEvent { target: ActivityState::Loading, subject: v.subject },
                    HookEvent { target: ActivityState::Active, subject: s2 },
                ]);
            } else {
                assert(delta =~= Seq::<HookEvent<T>>::empty());
            }
        },
        ActivityState::Loading => {
            if v.inner is Some {
                assert(delta =~= seq![
                    HookEvent { target: ActivityState::Active, subject: s2 },
                ]);
            } else {
                assert(delta =~= Seq::<HookEvent<T>>::empty());
            }
        },
        ActivityState::Inactive => {
            assert(delta =~= Seq::<HookEvent<T>>::empty());
        },
    }
    assert(w.calls.take(v.calls.len() as int) =~= v.calls);
}

/// Law: changing the inner model is meaningless without a subject, and is
/// guaranteed to change nothing at all — not the state, not the subject,
/// not the owned model, and no hook runs.
pub proof fn lemma_change_model_needs_subject<T: PartialEq>(v: VmModel<T>, m: Option<InnerModel<T>>)
    requires
        v.subject is None,
    ensures
        vm_change_model(v, m) == v,
{
}

/// The owned inner model's vestigial state field agrees with the view
/// model's own state.
pub open spec fn inner_in_sync<T>(v: VmModel<T>) -> bool {
    v.inner matches Some(im) ==> im.state == v.state
}

/// Law: the three lifecycle operations and subject swaps keep the inner
/// model's mirrored state in agreement with the view model's.
pub proof fn lemma_lifecycle_keeps_inner_in_sync<T: PartialEq>(v: VmModel<T>, s: Option<T>)
    requires
        inner_in_sync(v),
    ensures
        inner_in_sync(vm_activate(v)),
        inner_in_sync(vm_deactivate(v)),
        inner_in_sync(vm_loading(v)),
        inner_in_sync(vm_change_subject(v, s)),
{
}

/// Law: a model swap keeps the mirrored state in agreement too, except
/// from `Loading`, where the proposed model is installed untouched and
/// must itself already record `Loading` for agreement to survive.
pub proof fn lemma_change_model_keeps_inner_in_sync<T: PartialEq>(
    v: VmModel<T>,
    m: Option<InnerModel<T>>,
)
    requires
        inner_in_sync(v),
        v.state is Loading ==> (m matches Some(im) ==> im.state is Loading),
    ensures
        inner_in_sync(vm_change_model(v, m)),
{
}

} // verus!
