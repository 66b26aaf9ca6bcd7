//! The registry of backends and the policy that picks one of them.
//!
//! A router is built once from the two switches of the configuration and is
//! never changed afterwards. Its telemetry is synthetic and fixed: every
//! backend reports the same latency and failure rate whenever it is asked, so
//! a snapshot can be taken again at any time and comes out the same.
//!
//! Two policies are offered, and a router follows the one it was built with,
//! always:
//!
//! - `RoutingPolicy::AnyEnabled` draws at random among the enabled backends of
//!   the preferred family. Where no family has an enabled backend it falls
//!   back to the first backend of the registry, enabled or not.
//! - `RoutingPolicy::LowestLatency` leaves out every backend whose failure
//!   rate has reached `FAILURE_CEILING_PPM` and takes, of the rest of the
//!   preferred family, the one with the lowest latency; of several with the
//!   same latency the one that stands first in the registry. It never falls
//!   back to a backend that it has left out.
//!
//! In both, Oxen is preferred to Tor whatever the numbers of the Tor
//! backends are, and an empty registry gives no backend. The target of the
//! connection has no influence on either.
//!
//! Latencies are held in microseconds and failure rates in parts per
//! million, as whole numbers.

use crate::config::GoldDustConfig;
use crate::random::choose_index;
use vstd::prelude::*;

verus! {

/// Which family a backend belongs to.
#[derive(Debug, Clone, Copy, PartialEq, Eq, Structural)]
pub enum BackendKind {
    Oxen,
    Tor,
}

/// Health snapshot of a single backend.
#[derive(Debug, Clone, PartialEq, Eq)]
pub struct BackendHealth {
    pub name: String,
    pub kind: BackendKind,
    /// Latency in microseconds.
    pub latency_us: u64,
    /// Failure rate in parts per million.
    pub failure_ppm: u32,
    pub enabled: bool,
}

/// The router's answer for a target.
#[derive(Debug, Clone, PartialEq, Eq)]
pub enum BackendChoice {
    /// The backend to use, with its health at the time of the decision.
    Selected { name: String, kind: BackendKind, latency_us: u64, failure_ppm: u32 },
    /// No backend is available. This is an ordinary answer, not a failure.
    NoBackend { message: String },
}

/// The rule by which a router picks.
#[derive(Debug, Clone, Copy, PartialEq, Eq, Structural)]
pub enum RoutingPolicy {
    AnyEnabled,
    LowestLatency,
}

pub struct HealthView {
    pub name: Seq<char>,
    pub kind: BackendKind,
    pub latency_us: nat,
    pub failure_ppm: nat,
    pub enabled: bool,
}

pub enum ChoiceView {
    Selected { name: Seq<char>, kind: BackendKind, latency_us: nat, failure_ppm: nat },
    NoBackend { message: Seq<char> },
}

impl View for BackendHealth {
    type V = HealthView;

    open spec fn view(&self) -> HealthView {
        HealthView {
            name: self.name@,
            kind: self.kind,
            latency_us: self.latency_us as nat,
            failure_ppm: self.failure_ppm as nat,
            enabled: self.enabled,
        }
    }
}

impl View for BackendChoice {
    type V = ChoiceView;

    open spec fn view(&self) -> ChoiceView {
        match self {
            BackendChoice::Selected { name, kind, latency_us, failure_ppm } => ChoiceView::Selected {
                name: name@,
                kind: *kind,
                latency_us: *latency_us as nat,
                failure_ppm: *failure_ppm as nat,
            },
            BackendChoice::NoBackend { message } => ChoiceView::NoBackend { message: message@ },
        }
    }
}

/// A failure rate of a twentieth or more rules a backend out under
/// `RoutingPolicy::LowestLatency`.
pub const FAILURE_CEILING_PPM: u32 = 50_000;

/// The message of `BackendChoice::NoBackend`.
pub const NO_BACKEND_MESSAGE: &'static str = "no backend available";

/// What `kind` is called where a decision is shown.
pub open spec fn label_of(kind: BackendKind) -> Seq<char> {
    match kind {
        BackendKind::Oxen => "Oxen-first, Tor-fallback policy"@,
        BackendKind::Tor => "Tor fallback"@,
    }
}

/// The snapshots that a list of healths stands for.
pub open spec fn snapshot_of(healths: Seq<BackendHealth>) -> Seq<HealthView> {
    healths.map_values(|h: BackendHealth| h@)
}

/// The answer that names backend `h`.
pub open spec fn chosen(h: HealthView) -> ChoiceView {
    ChoiceView::Selected {
        name: h.name,
        kind: h.kind,
        latency_us: h.latency_us,
        failure_ppm: h.failure_ppm,
    }
}

/// The answer that names none.
pub open spec fn no_backend() -> ChoiceView {
    ChoiceView::NoBackend { message: NO_BACKEND_MESSAGE@ }
}

/// Whether `RoutingPolicy::AnyEnabled` may draw `h` for `kind`.
pub open spec fn eligible(h: HealthView, kind: BackendKind) -> bool {
    h.enabled && h.kind == kind
}

/// Whether the registry holds a backend that may be drawn for `kind`.
pub open spec fn has_eligible(registry: Seq<HealthView>, kind: BackendKind) -> bool {
    exists|i: int| 0 <= i < registry.len() && eligible(#[trigger] registry[i], kind)
}

/// The answer of `RoutingPolicy::AnyEnabled`, given what was drawn for each
/// family: the Oxen backend if one was drawn, else the Tor backend if one
/// was drawn, else the first backend of the registry, else none.
pub open spec fn answer_to_draws(
    registry: Seq<HealthView>,
    oxen: Option<HealthView>,
    tor: Option<HealthView>,
) -> ChoiceView {
    match oxen {
        Some(h) => chosen(h),
        None => match tor {
            Some(h) => chosen(h),
            None => if registry.len() > 0 {
                chosen(registry[0])
            } else {
                no_backend()
            },
        },
    }
}

/// Whether `choice` is an answer that `RoutingPolicy::AnyEnabled` may give
/// for `registry`. Chance decides among the enabled backends of the
/// preferred family and about nothing else.
pub open spec fn any_enabled_answer(registry: Seq<HealthView>, choice: ChoiceView) -> bool {
    if has_eligible(registry, BackendKind::Oxen) {
        exists|i: int|
            0 <= i < registry.len() && eligible(#[trigger] registry[i], BackendKind::Oxen) && choice
                == chosen(registry[i])
    } else if has_eligible(registry, BackendKind::Tor) {
        exists|i: int|
            0 <= i < registry.len() && eligible(#[trigger] registry[i], BackendKind::Tor) && choice
                == chosen(registry[i])
    } else if registry.len() > 0 {
        choice == chosen(registry[0])
    } else {
        choice == no_backend()
    }
}

/// Whether `RoutingPolicy::LowestLatency` considers `h` for `kind`: it is of
/// that family and its failure rate is below the ceiling. That a backend is
/// listed is what enables it here: `enabled` plays no part.
pub open spec fn acceptable(h: HealthView, kind: BackendKind) -> bool {
    h.kind == kind && h.failure_ppm < FAILURE_CEILING_PPM
}

/// Whether backend `i` is the pick of `RoutingPolicy::LowestLatency` for
/// `kind`: it is considered, none that is considered has a lower latency,
/// and none before it has the same.
pub open spec fn is_best(registry: Seq<HealthView>, kind: BackendKind, i: int) -> bool {
    &&& 0 <= i < registry.len()
    &&& acceptable(registry[i], kind)
    &&& forall|j: int|
        0 <= j < registry.len() && acceptable(#[trigger] registry[j], kind) ==> registry[i].latency_us
            <= registry[j].latency_us
    &&& forall|j: int|
        0 <= j < i && acceptable(#[trigger] registry[j], kind) ==> registry[i].latency_us
            < registry[j].latency_us
}

/// The pick of `RoutingPolicy::LowestLatency` for `kind`, if any backend is
/// considered.
pub open spec fn best_index(registry: Seq<HealthView>, kind: BackendKind) -> Option<int> {
    if exists|i: int| is_best(registry, kind, i) {
        Some(choose|i: int| is_best(registry, kind, i))
    } else {
        None
    }
}

/// The answer of `RoutingPolicy::LowestLatency`: the pick for Oxen if there
/// is one, else the pick for Tor, else none.
pub open spec fn lowest_latency_answer(registry: Seq<HealthView>) -> ChoiceView {
    match best_index(registry, BackendKind::Oxen) {
        Some(i) => chosen(registry[i]),
        None => match best_index(registry, BackendKind::Tor) {
            Some(i) => chosen(registry[i]),
            None => no_backend(),
        },
    }
}

/// Whether `choice` is an answer that a router with `registry` and `policy`
/// may give.
pub open spec fn routing_answer(
    registry: Seq<HealthView>,
    policy: RoutingPolicy,
    choice: ChoiceView,
) -> bool {
    match policy {
        RoutingPolicy::AnyEnabled => any_enabled_answer(registry, choice),
        RoutingPolicy::LowestLatency => choice == lowest_latency_answer(registry),
    }
}

/// What holds of every registry of a router: no two backends share a name,
/// and every failure rate is below one.
pub open spec fn registry_sound(registry: Seq<HealthView>) -> bool {
    &&& forall|i: int, j: int|
        0 <= i < j < registry.len() ==> (#[trigger] registry[i]).name != (#[trigger] registry[j]).name
    &&& forall|i: int| 0 <= i < registry.len() ==> (#[trigger] registry[i]).failure_ppm < 1_000_000
}

pub open spec fn oxen_node_1() -> HealthView {
    HealthView {
        name: "oxen-node-1"@,
        kind: BackendKind::Oxen,
        latency_us: 60_000,
        failure_ppm: 20_000,
        enabled: true,
    }
}

pub open spec fn oxen_node_2() -> HealthView {
    HealthView {
        name: "oxen-node-2"@,
        kind: BackendKind::Oxen,
        latency_us: 70_000,
        failure_ppm: 30_000,
        enabled: true,
    }
}

pub open spec fn tor_exit_1() -> HealthView {
    HealthView {
        name: "tor-exit-1"@,
        kind: BackendKind::Tor,
        latency_us: 250_000,
        failure_ppm: 10_000,
        enabled: true,
    }
}

/// The registry that a configuration stands for: two Oxen nodes if Oxen is
/// enabled, then one Tor exit if Tor is enabled.
pub open spec fn registry_of(config: GoldDustConfig) -> Seq<HealthView> {
    let oxen = if config.backends.oxen_enabled {
        seq![oxen_node_1(), oxen_node_2()]
    } else {
        Seq::empty()
    };
    let tor = if config.backends.tor_enabled {
        seq![tor_exit_1()]
    } else {
        Seq::empty()
    };
    oxen + tor
}

/// What `kind` is called where a decision is shown.
pub fn backend_label(kind: BackendKind) -> (label: &'static str)
    ensures
        label@ == label_of(kind),
{
    match kind {
        BackendKind::Oxen => "Oxen-first, Tor-fallback policy",
        BackendKind::Tor => "Tor fallback",
    }
}

/// Copies a health snapshot.
fn copy_of(h: &BackendHealth) -> (copy: BackendHealth)
    ensures
        copy@ == h@,
{
    BackendHealth {
        name: h.name.clone(),
        kind: h.kind,
        latency_us: h.latency_us,
        failure_ppm: h.failure_ppm,
        enabled: h.enabled,
    }
}

/// The answer that names backend `h`.
fn selected(h: &BackendHealth) -> (choice: BackendChoice)
    ensures
        choice@ == chosen(h@),
{
    BackendChoice::Selected {
        name: h.name.clone(),
        kind: h.kind,
        latency_us: h.latency_us,
        failure_ppm: h.failure_ppm,
    }
}

/// The backends that `RoutingPolicy::AnyEnabled` may draw for `kind`, by
/// their places in `healths`, in rising order.
pub fn eligible_indices(healths: &Vec<BackendHealth>, kind: BackendKind) -> (found: Vec<usize>)
    ensures
        forall|k: int|
            0 <= k < found.len() ==> (#[trigger] found[k]) < healths.len() && eligible(
                healths[found[k] as int]@,
                kind,
            ),
        forall|i: int|
            0 <= i < healths.len() && eligible((#[trigger] healths[i])@, kind) ==> found@.contains(
                i as usize,
            ),
        forall|k: int, l: int| 0 <= k < l < found.len() ==> found[k] < found[l],
{
    let mut found: Vec<usize> = Vec::new();
    let mut i: usize = 0;
    while i < healths.len()
        invariant
            i <= healths.len(),
            forall|k: int|
                0 <= k < found.len() ==> (#[trigger] found[k]) < i && eligible(
                    healths[found[k] as int]@,
                    kind,
                ),
            forall|j: int|
                0 <= j < i && eligible((#[trigger] healths[j])@, kind) ==> found@.contains(
                    j as usize,
                ),
            forall|k: int, l: int| 0 <= k < l < found.len() ==> found[k] < found[l],
        decreases healths.len() - i,
    {
        if healths[i].enabled && healths[i].kind == kind {
            let ghost before = found@;
            found.push(i);
            assert(found@[before.len() as int] == i);
            assert forall|j: int|
                0 <= j < i + 1 && eligible((#[trigger] healths[j])@, kind) implies found@.contains(
                j as usize,
            ) by {
                if j < i {
                    let k = choose|k: int| 0 <= k < before.len() && before[k] == j as usize;
                    assert(found@[k] == j as usize);
                }
            }
        }
        i = i + 1;
    }
    found
}

/// The answer of `RoutingPolicy::AnyEnabled` once chance has spoken: `oxen`
/// and `tor` are what was drawn for each family, `None` where the family has
/// no enabled backend.
pub fn answer_draws(
    healths: &Vec<BackendHealth>,
    oxen: Option<&BackendHealth>,
    tor: Option<&BackendHealth>,
) -> (choice: BackendChoice)
    ensures
        choice@ == answer_to_draws(
            snapshot_of(healths@),
            match oxen {
                Some(h) => Some(h@),
                None => None,
            },
            match tor {
                Some(h) => Some(h@),
                None => None,
            },
        ),
{
    if let Some(h) = oxen {
        return selected(h);
    }
    if let Some(h) = tor {
        return selected(h);
    }
    if healths.len() > 0 {
        selected(&healths[0])
    } else {
        BackendChoice::NoBackend { message: NO_BACKEND_MESSAGE.to_owned() }
    }
}

/// At most one backend is the pick for a family.
pub proof fn lemma_best_is_unique(registry: Seq<HealthView>, kind: BackendKind, i: int, j: int)
    requires
        is_best(registry, kind, i),
        is_best(registry, kind, j),
    ensures
        i == j,
{
}

/// The pick of `RoutingPolicy::LowestLatency` for `kind`, by its place in
/// `healths`.
pub fn lowest_latency(healths: &Vec<BackendHealth>, kind: BackendKind) -> (best: Option<usize>)
    ensures
        best_index(snapshot_of(healths@), kind) == (match best {
            Some(i) => Some(i as int),
            None => None,
        }),
        best matches Some(i) ==> i < healths.len(),
{
    let ghost registry = snapshot_of(healths@);
    let mut best: Option<usize> = None;
    let mut i: usize = 0;
    while i < healths.len()
        invariant
            i <= healths.len(),
            registry == snapshot_of(healths@),
            match best {
                Some(b) => {
                    &&& b < i
                    &&& acceptable(registry[b as int], kind)
                    &&& forall|j: int|
                        0 <= j < i && acceptable(#[trigger] registry[j], kind)
                            ==> registry[b as int].latency_us <= registry[j].latency_us
                    &&& forall|j: int|
                        0 <= j < b && acceptable(#[trigger] registry[j], kind)
                            ==> registry[b as int].latency_us < registry[j].latency_us
                },
                None => forall|j: int| 0 <= j < i ==> !acceptable(#[trigger] registry[j], kind),
            },
        decreases healths.len() - i,
    {
        let h = &healths[i];
        assert(registry[i as int] == h@);
        if h.kind == kind && h.failure_ppm < FAILURE_CEILING_PPM {
            let better = match best {
                Some(b) => h.latency_us < healths[b].latency_us,
                None => true,
            };
            if better {
                best = Some(i);
            }
        }
        i = i + 1;
    }
    proof {
        match best {
            Some(b) => {
                assert(is_best(registry, kind, b as int));
                lemma_best_is_unique(
                    registry,
                    kind,
                    b as int,
                    choose|i: int| is_best(registry, kind, i),
                );
            },
            None => {
                assert forall|i: int| !is_best(registry, kind, i) by {
                    if 0 <= i < registry.len() {
                        assert(!acceptable(registry[i], kind));
                    }
                }
            },
        }
    }
    best
}

/// The answer of `RoutingPolicy::LowestLatency` for a snapshot.
pub fn answer_lowest_latency(healths: &Vec<BackendHealth>) -> (choice: BackendChoice)
    ensures
        choice@ == lowest_latency_answer(snapshot_of(healths@)),
{
    if let Some(i) = lowest_latency(healths, BackendKind::Oxen) {
        return selected(&healths[i]);
    }
    if let Some(i) = lowest_latency(healths, BackendKind::Tor) {
        return selected(&healths[i]);
    }
    BackendChoice::NoBackend { message: NO_BACKEND_MESSAGE.to_owned() }
}

/// Every registry that stands for a configuration is sound.
pub proof fn lemma_registry_of_is_sound(config: GoldDustConfig)
    ensures
        registry_sound(registry_of(config)),
{
    reveal_strlit("oxen-node-1");
    reveal_strlit("oxen-node-2");
    reveal_strlit("tor-exit-1");
    assert("oxen-node-1"@[10] != "oxen-node-2"@[10]);
    assert("oxen-node-1"@[0] != "tor-exit-1"@[0]);
    assert("oxen-node-2"@[0] != "tor-exit-1"@[0]);
}

/// Simple in-memory router: Oxen first, Tor as the fallback.
#[derive(Debug)]
pub struct Router {
    backends: Vec<BackendHealth>,
    policy: RoutingPolicy,
}

impl View for Router {
    type V = Seq<HealthView>;

    /// The registry: the health of every backend, in the order in which the
    /// backends were registered.
    closed spec fn view(&self) -> Seq<HealthView> {
        snapshot_of(self.backends@)
    }
}

impl Router {
    /// The policy that the router follows.
    pub closed spec fn policy_of(&self) -> RoutingPolicy {
        self.policy
    }

    #[verifier::type_invariant]
    spec fn sound(self) -> bool {
        registry_sound(snapshot_of(self.backends@))
    }

    /// Build a router from the switches of `config`, with the policy
    /// `RoutingPolicy::AnyEnabled`.
    pub fn from_config(config: &GoldDustConfig) -> (router: Router)
        ensures
            router@ == registry_of(*config),
            router.policy_of() == RoutingPolicy::AnyEnabled,
    {
        Router::with_policy(config, RoutingPolicy::AnyEnabled)
    }

    /// Build a router from the switches of `config` that follows `policy`.
    pub fn with_policy(config: &GoldDustConfig, policy: RoutingPolicy) -> (router: Router)
        ensures
            router@ == registry_of(*config),
            router.policy_of() == policy,
    {
        let mut backends: Vec<BackendHealth> = Vec::new();
        if config.backends.oxen_enabled {
            backends.push(
                BackendHealth {
                    name: "oxen-node-1".to_owned(),
                    kind: BackendKind::Oxen,
                    latency_us: 60_000,
                    failure_ppm: 20_000,
                    enabled: true,
                },
            );
            backends.push(
                BackendHealth {
                    name: "oxen-node-2".to_owned(),
                    kind: BackendKind::Oxen,
                    latency_us: 70_000,
                    failure_ppm: 30_000,
                    enabled: true,
                },
            );
        }
        if config.backends.tor_enabled {
            backends.push(
                BackendHealth {
                    name: "tor-exit-1".to_owned(),
                    kind: BackendKind::Tor,
                    latency_us: 250_000,
                    failure_ppm: 10_000,
                    enabled: true,
                },
            );
        }
        proof {
            assert(snapshot_of(backends@) =~= registry_of(*config));
            lemma_registry_of_is_sound(*config);
        }
        Router { backends, policy }
    }

    /// The policy that the router follows.
    pub fn policy(&self) -> (policy: RoutingPolicy)
        ensures
            policy == self.policy_of(),
    {
        self.policy
    }

    /// Return a copy of current backend health for dashboards and the
    /// command line: one snapshot for each backend, in the order of the
    /// registry.
    pub fn backend_health(&self) -> (healths: Vec<BackendHealth>)
        ensures
            snapshot_of(healths@) == self@,
            registry_sound(self@),
    {
        proof {
            use_type_invariant(self);
        }
        let mut healths: Vec<BackendHealth> = Vec::new();
        let mut i: usize = 0;
        while i < self.backends.len()
            invariant
                i <= self.backends.len(),
                healths.len() == i,
                forall|j: int| 0 <= j < i ==> (#[trigger] healths[j])@ == self.backends[j]@,
            decreases self.backends.len() - i,
        {
            healths.push(copy_of(&self.backends[i]));
            i = i + 1;
        }
        assert(snapshot_of(healths@) =~= snapshot_of(self.backends@));
        healths
    }

    /// Pick a backend for this target, by the policy of the router. The
    /// router itself is left as it was.
    pub fn choose_backend_for(&mut self, _target: &str) -> (choice: BackendChoice)
        ensures
            *final(self) == *old(self),
            routing_answer(old(self)@, old(self).policy_of(), choice@),
    {
        match self.policy {
            RoutingPolicy::LowestLatency => answer_lowest_latency(&self.backends),
            RoutingPolicy::AnyEnabled => {
                let ghost registry = snapshot_of(self.backends@);
                let mut rng = rand::thread_rng();
                let oxen_places = eligible_indices(&self.backends, BackendKind::Oxen);
                let oxen_drawn = choose_index(&oxen_places, &mut rng);
                let oxen = match oxen_drawn {
                    Some(i) => Some(&self.backends[i]),
                    None => None,
                };
                let ghost mut tor_drawn: Option<usize> = None;
                let tor = if oxen.is_none() {
                    let tor_places = eligible_indices(&self.backends, BackendKind::Tor);
                    let drawn = choose_index(&tor_places, &mut rng);
                    proof {
                        tor_drawn = drawn;
                        if drawn is None {
                            assert(!has_eligible(registry, BackendKind::Tor));
                        }
                    }
                    match drawn {
                        Some(i) => Some(&self.backends[i]),
                        None => None,
                    }
                } else {
                    None
                };
                proof {
                    match oxen_drawn {
                        Some(i) => {
                            assert(eligible(registry[i as int], BackendKind::Oxen));
                        },
                        None => {
                            assert(!has_eligible(registry, BackendKind::Oxen));
                            if let Some(i) = tor_drawn {
                                assert(eligible(registry[i as int], BackendKind::Tor));
                            }
                        },
                    }
                }
                answer_draws(&self.backends, oxen, tor)
            },
        }
    }
}

/// A router with no family enabled has no backend to give, whatever its
/// policy and whatever chance says.
pub proof fn lemma_nothing_enabled_no_backend(
    config: GoldDustConfig,
    policy: RoutingPolicy,
    choice: ChoiceView,
)
    requires
        !config.backends.oxen_enabled,
        !config.backends.tor_enabled,
        routing_answer(registry_of(config), policy, choice),
    ensures
        choice == no_backend(),
{
    let registry = registry_of(config);
    assert(registry.len() == 0);
    assert(!has_eligible(registry, BackendKind::Oxen));
    assert(!has_eligible(registry, BackendKind::Tor));
    assert forall|kind: BackendKind| best_index(registry, kind) is None by {
        assert forall|i: int| !is_best(registry, kind, i) by {}
    }
}

/// A router whose registry holds no Oxen backend never answers with one,
/// whatever its policy and whatever chance says.
pub proof fn lemma_no_oxen_registered_none_chosen(
    registry: Seq<HealthView>,
    policy: RoutingPolicy,
    choice: ChoiceView,
)
    requires
        forall|i: int| 0 <= i < registry.len() ==> (#[trigger] registry[i]).kind != BackendKind::Oxen,
        routing_answer(registry, policy, choice),
    ensures
        choice matches ChoiceView::Selected { kind, .. } ==> kind != BackendKind::Oxen,
{
    assert(!has_eligible(registry, BackendKind::Oxen));
    assert forall|i: int| !is_best(registry, BackendKind::Oxen, i) by {}
    match policy {
        RoutingPolicy::AnyEnabled => {},
        RoutingPolicy::LowestLatency => {
            if let Some(i) = best_index(registry, BackendKind::Tor) {
                assert(is_best(registry, BackendKind::Tor, i));
            }
        },
    }
}

/// With Tor alone enabled a router answers with the Tor exit and never with
/// an Oxen node, whatever its policy and whatever chance says.
pub proof fn lemma_tor_only_never_oxen(
    config: GoldDustConfig,
    policy: RoutingPolicy,
    choice: ChoiceView,
)
    requires
        !config.backends.oxen_enabled,
        config.backends.tor_enabled,
        routing_answer(registry_of(config), policy, choice),
    ensures
        choice == chosen(tor_exit_1()),
        choice matches ChoiceView::Selected { kind, .. } && kind == BackendKind::Tor,
{
    let registry = registry_of(config);
    assert(registry =~= seq![tor_exit_1()]);
    assert(registry[0] == tor_exit_1());
    assert(!has_eligible(registry, BackendKind::Oxen));
    assert(eligible(registry[0], BackendKind::Tor));
    assert forall|i: int| !is_best(registry, BackendKind::Oxen, i) by {}
    assert(is_best(registry, BackendKind::Tor, 0));
    lemma_best_is_unique(
        registry,
        BackendKind::Tor,
        0,
        choose|i: int| is_best(registry, BackendKind::Tor, i),
    );
}

/// Under `RoutingPolicy::LowestLatency` the answer depends on the registry
/// alone: as long as the registry is unchanged, every call gives the same
/// answer.
pub proof fn lemma_lowest_latency_is_deterministic(
    registry: Seq<HealthView>,
    first: ChoiceView,
    second: ChoiceView,
)
    requires
        routing_answer(registry, RoutingPolicy::LowestLatency, first),
        routing_answer(registry, RoutingPolicy::LowestLatency, second),
    ensures
        first == second,
{
}

/// Under `RoutingPolicy::AnyEnabled` chance has a say only where the
/// preferred family has more than one enabled backend: given what was drawn,
/// the answer is settled, and with Oxen enabled it is one of the two Oxen
/// nodes.
pub proof fn lemma_oxen_enabled_oxen_chosen(
    config: GoldDustConfig,
    policy: RoutingPolicy,
    choice: ChoiceView,
)
    requires
        config.backends.oxen_enabled,
        routing_answer(registry_of(config), policy, choice),
    ensures
        policy == RoutingPolicy::AnyEnabled ==> choice == chosen(oxen_node_1()) || choice == chosen(
            oxen_node_2(),
        ),
        policy == RoutingPolicy::LowestLatency ==> choice == chosen(oxen_node_1()),
{
    let registry = registry_of(config);
    assert(registry[0] == oxen_node_1());
    assert(registry[1] == oxen_node_2());
    assert(eligible(registry[0], BackendKind::Oxen));
    assert(is_best(registry, BackendKind::Oxen, 0)) by {
        assert forall|j: int|
            0 <= j < registry.len() && acceptable(
                #[trigger] registry[j],
                BackendKind::Oxen,
            ) implies registry[0].latency_us <= registry[j].latency_us by {
            if config.backends.tor_enabled {
                assert(registry[2] == tor_exit_1());
            }
        }
    }
    lemma_best_is_unique(
        registry,
        BackendKind::Oxen,
        0,
        choose|i: int| is_best(registry, BackendKind::Oxen, i),
    );
    if policy == RoutingPolicy::AnyEnabled {
        let i = choose|i: int|
            0 <= i < registry.len() && eligible(#[trigger] registry[i], BackendKind::Oxen) && choice
                == chosen(registry[i]);
        if config.backends.tor_enabled {
            assert(registry[2] == tor_exit_1());
        }
    }
}

} // verus!
