use vstd::prelude::*;
use vstd::string::StringExecFns;
use crate::resonance::PrimeFaction;
use crate::text::{trim_str, trimmed};

verus! {

#[derive(Debug, Clone, PartialEq, Eq, Structural)]
pub enum PulseKind {
    Game,
    World,
    VisualMusic,
    Demo,
    Ambient,
}

#[derive(Debug, Clone, PartialEq, Eq, Structural)]
pub enum Interactivity {
    Interactive,
    Passive,
    Hybrid,
}

/// Where a pulse is in its lifecycle.
#[derive(Debug, Clone, Copy, PartialEq, Eq, Structural)]
pub enum PulseState {
    Loaded,
    Initialized,
    Running,
    Shutdown,
}

/// The stages of the boot demo, in the order they play.
#[derive(Debug, Clone, Copy, PartialEq, Eq, Structural)]
pub enum DemoStageType {
    Bootstrap,
    ParticleFormation,
    LogoAssembly,
    LogoReveal,
    EnergyPulse,
    SceneCollapse,
    RuntimeHandover,
}

/// Why a pulse definition's header is rejected, if it is.
pub open spec fn pulse_header_error(metadata_kind: PulseKind, pulse_kind: PulseKind, title: Seq<
    char,
>) -> Option<Seq<char>> {
    if metadata_kind != pulse_kind {
        Some("metadata.pulse_kind must match pulse_kind"@)
    } else if trimmed(title).len() == 0 {
        Some("metadata.title must not be empty"@)
    } else {
        None
    }
}

/// Checks a pulse definition's header: the metadata's kind must be the
/// pulse's kind, and the title must not be blank.
pub fn validate_pulse_header(metadata_kind: &PulseKind, pulse_kind: &PulseKind, title: &str) -> (r:
    Result<(), String>)
    ensures
        match r {
            Ok(()) => pulse_header_error(*metadata_kind, *pulse_kind, title@) is None,
            Err(e) => pulse_header_error(*metadata_kind, *pulse_kind, title@) == Some(e@),
        },
{
    if *metadata_kind != *pulse_kind {
        return Err(String::from_str("metadata.pulse_kind must match pulse_kind"));
    }
    if trim_str(title).unicode_len() == 0 {
        return Err(String::from_str("metadata.title must not be empty"));
    }
    Ok(())
}

/// A pulse in a graph, by id.
#[derive(Debug, Clone, PartialEq)]
pub struct PulseNode {
    pub id: String,
    pub pulse_path: String,
}

/// An edge of a pulse graph; `kind` says when it fires.
#[derive(Debug, Clone, PartialEq)]
pub struct PulseTransition<K> {
    pub from: String,
    pub to: String,
    pub kind: K,
}

/// Pulses and the transitions between them, starting at `entry_node`.
#[derive(Debug, Clone, PartialEq)]
pub struct PulseGraph<K> {
    pub name: String,
    pub seed: u32,
    pub entry_node: String,
    pub nodes: Vec<PulseNode>,
    pub transitions: Vec<PulseTransition<K>>,
}

/// The ids of `nodes`, in order.
pub open spec fn node_ids(nodes: Seq<PulseNode>) -> Seq<Seq<char>> {
    nodes.map_values(|n: PulseNode| n.id@)
}

/// The first of `ts` whose ends are not both among `ids`.
pub open spec fn first_unknown_transition<K>(ids: Seq<Seq<char>>, ts: Seq<PulseTransition<K>>) -> Option<
    PulseTransition<K>,
>
    decreases ts.len(),
{
    if ts.len() == 0 {
        None
    } else if !ids.contains(ts[0].from@) || !ids.contains(ts[0].to@) {
        Some(ts[0])
    } else {
        first_unknown_transition(ids, ts.drop_first())
    }
}

/// Why a graph is rejected, if it is.
pub open spec fn graph_error<K>(g: PulseGraph<K>) -> Option<Seq<char>> {
    let ids = node_ids(g.nodes@);
    if trimmed(g.name@).len() == 0 {
        Some("graph name must not be empty"@)
    } else if g.nodes@.len() == 0 {
        Some("graph must contain at least one node"@)
    } else if !ids.contains(g.entry_node@) {
        Some("entry_node must reference an existing node id"@)
    } else {
        match first_unknown_transition(ids, g.transitions@) {
            Some(t) => Some("transition references unknown nodes: "@ + t.from@ + " -> "@ + t.to@),
            None => None,
        }
    }
}

/// Whether some node has id `id`.
fn has_node_id(nodes: &Vec<PulseNode>, id: &String) -> (r: bool)
    ensures
        r == node_ids(nodes@).contains(id@),
{
    let mut i: usize = 0;
    while i < nodes.len()
        invariant
            i <= nodes@.len(),
            forall|k: int| 0 <= k < i ==> nodes@[k].id@ != id@,
        decreases nodes@.len() - i,
    {
        if nodes[i].id == *id {
            assert(node_ids(nodes@)[i as int] == id@);
            return true;
        }
        i = i + 1;
    }
    assert forall|k: int| 0 <= k < node_ids(nodes@).len() implies node_ids(nodes@)[k] != id@ by {
        assert(node_ids(nodes@)[k] == nodes@[k].id@);
    }
    false
}

impl<K> PulseGraph<K> {
    /// Checks that the graph is named, has nodes, starts at one of them, and
    /// that every transition joins two of them; the first failure is reported.
    pub fn validate(&self) -> (r: Result<(), String>)
        ensures
            match r {
                Ok(()) => graph_error(*self) is None,
                Err(e) => graph_error(*self) == Some(e@),
            },
    {
        if trim_str(self.name.as_str()).unicode_len() == 0 {
            return Err(String::from_str("graph name must not be empty"));
        }
        if self.nodes.len() == 0 {
            return Err(String::from_str("graph must contain at least one node"));
        }
        if !has_node_id(&self.nodes, &self.entry_node) {
            return Err(String::from_str("entry_node must reference an existing node id"));
        }
        let ghost ids = node_ids(self.nodes@);
        assert(self.transitions@.subrange(0, self.transitions@.len() as int) =~= self.transitions@);
        let mut i: usize = 0;
        while i < self.transitions.len()
            invariant
                i <= self.transitions@.len(),
                ids == node_ids(self.nodes@),
                trimmed(self.name@).len() > 0,
                self.nodes@.len() > 0,
                ids.contains(self.entry_node@),
                first_unknown_transition(ids, self.transitions@) == first_unknown_transition(
                    ids,
                    self.transitions@.subrange(i as int, self.transitions@.len() as int),
                ),
            decreases self.transitions@.len() - i,
        {
            let ghost rest = self.transitions@.subrange(i as int, self.transitions@.len() as int);
            assert(rest.drop_first() =~= self.transitions@.subrange(
                i + 1,
                self.transitions@.len() as int,
            ));
            let t = &self.transitions[i];
            assert(rest[0] == *t);
            if !has_node_id(&self.nodes, &t.from) || !has_node_id(&self.nodes, &t.to) {
                let mut msg = String::from_str("transition references unknown nodes: ");
                msg.append(t.from.as_str());
                msg.append(" -> ");
                msg.append(t.to.as_str());
                assert(first_unknown_transition(ids, rest) == Some(*t));
                assert(first_unknown_transition(ids, self.transitions@) == Some(*t));
                assert(msg@ == "transition references unknown nodes: "@ + t.from@ + " -> "@ + t.to@);
                return Err(msg);
            }
            i = i + 1;
        }
        assert(self.transitions@.subrange(i as int, self.transitions@.len() as int) =~= Seq::<
            PulseTransition<K>,
        >::empty());
        Ok(())
    }
}

/// The index of the last node with id `id`: the one a map from id to node,
/// built in node order, keeps.
pub open spec fn last_node_with_id(nodes: Seq<PulseNode>, id: Seq<char>) -> Option<int>
    decreases nodes.len(),
{
    if nodes.len() == 0 {
        None
    } else if nodes.last().id@ == id {
        Some(nodes.len() - 1)
    } else {
        last_node_with_id(nodes.drop_last(), id)
    }
}

impl<K> PulseGraph<K> {
    /// The node a graph runner switches to for `id`: the last node with that id.
    pub fn node_for_id(&self, id: &String) -> (r: Option<&PulseNode>)
        ensures
            match last_node_with_id(self.nodes@, id@) {
                Some(i) => r == Some(&self.nodes@[i]),
                None => r is None,
            },
    {
        let mut i: usize = self.nodes.len();
        assert(self.nodes@.subrange(0, i as int) =~= self.nodes@);
        while i > 0
            invariant
                i <= self.nodes@.len(),
                last_node_with_id(self.nodes@, id@) == last_node_with_id(
                    self.nodes@.subrange(0, i as int),
                    id@,
                ),
            decreases i,
        {
            let ghost pre = self.nodes@.subrange(0, i as int);
            assert(pre.drop_last() =~= self.nodes@.subrange(0, i - 1));
            if self.nodes[i - 1].id == *id {
                return Some(&self.nodes[i - 1]);
            }
            i = i - 1;
        }
        None
    }
}

/// A set of trigger names, each held once, in the order first added.
#[derive(Debug, Clone, Default)]
pub struct TriggerSet {
    names: Vec<String>,
}

impl TriggerSet {
    pub closed spec fn view(&self) -> Set<Seq<char>> {
        self.names@.map_values(|s: String| s@).to_set()
    }

    pub closed spec fn wf(&self) -> bool {
        forall|i: int, j: int|
            0 <= i < j < self.names@.len() ==> #[trigger] self.names@[i]@
                != #[trigger] self.names@[j]@
    }

    pub fn new() -> (r: Self)
        ensures
            r.wf(),
            r@ == Set::<Seq<char>>::empty(),
    {
        let r = TriggerSet { names: Vec::new() };
        assert(r@ =~= Set::<Seq<char>>::empty());
        r
    }

    fn position(&self, name: &String) -> (r: Option<usize>)
        ensures
            match r {
                Some(i) => i < self.names@.len() && self.names@[i as int]@ == name@,
                None => forall|k: int| 0 <= k < self.names@.len() ==> self.names@[k]@ != name@,
            },
    {
        let mut i: usize = 0;
        while i < self.names.len()
            invariant
                i <= self.names@.len(),
                forall|k: int| 0 <= k < i ==> self.names@[k]@ != name@,
            decreases self.names@.len() - i,
        {
            if self.names[i] == *name {
                return Some(i);
            }
            i = i + 1;
        }
        None
    }

    /// Whether `name` is in the set.
    pub fn contains(&self, name: &String) -> (r: bool)
        ensures
            r == self@.contains(name@),
    {
        let p = self.position(name);
        proof {
            match p {
                Some(i) => {
                    assert(self.names@.map_values(|s: String| s@)[i as int] == name@);
                },
                None => {
                    if self@.contains(name@) {
                        let mapped = self.names@.map_values(|s: String| s@);
                        let k = choose|k: int| 0 <= k < mapped.len() && mapped[k] == name@;
                        assert(mapped[k] == self.names@[k]@);
                    }
                },
            }
        }
        p.is_some()
    }

    /// Adds `name`; nothing changes if it is already there.
    pub fn insert(&mut self, name: String)
        requires
            old(self).wf(),
        ensures
            final(self).wf(),
            final(self)@ == old(self)@.insert(name@),
    {
        let ghost before = self.names@;
        let ghost n = name@;
        match self.position(&name) {
            Some(i) => {
                assert(before.map_values(|s: String| s@)[i as int] == n);
                assert(before.map_values(|s: String| s@).contains(n));
                assert(self.names@ == before);
                assert(old(self)@.contains(n));
                assert(old(self)@.insert(n) =~= old(self)@);
            },
            None => {
                self.names.push(name);
                assert(self.names@.drop_last() == before);
                assert(self.names@.map_values(|s: String| s@) =~= before.map_values(
                    |s: String| s@,
                ).push(n));
                proof { before.map_values(|s: String| s@).lemma_push_to_set_commute(n); }
                assert(self@ =~= old(self)@.insert(n));
                assert forall|i: int, j: int| 0 <= i < j < self.names@.len() implies #[trigger] self.names@[i]@
                    != #[trigger] self.names@[j]@ by {
                    assert(self.names@[i] == before[i]);
                    if j < before.len() {
                        assert(self.names@[j] == before[j]);
                    }
                }
            },
        }
    }

    /// Empties the set.
    pub fn clear(&mut self)
        ensures
            final(self).wf(),
            final(self)@ == Set::<Seq<char>>::empty(),
    {
        self.names.clear();
        assert(self@ =~= Set::<Seq<char>>::empty());
    }
}

/// A bar-multiple cue fires on bars that are positive multiples of `multiple`
/// (zero counts as one).
pub fn bar_multiple_reached(bar_index: u64, multiple: u64) -> (r: bool)
    ensures
        r == (bar_index > 0 && bar_index % (if multiple == 0 { 1 } else { multiple }) == 0),
{
    let m = if multiple == 0 { 1 } else { multiple };
    bar_index > 0 && bar_index % m == 0
}

impl<K> PulseGraph<K> {
    /// The target of the first transition out of `active_node_id` that `fires`
    /// accepts; `fires` is asked only about transitions out of the active node,
    /// in graph order, until one is accepted.
    pub fn select_transition_target<F: Fn(&PulseTransition<K>) -> bool>(
        &self,
        active_node_id: &String,
        fires: F,
    ) -> (r: Option<String>)
        requires
            forall|i: int|
                0 <= i < self.transitions@.len() ==> fires.requires((&self.transitions@[i],)),
        ensures
            match r {
                Some(to) => exists|i: int|
                    0 <= i < self.transitions@.len() && self.transitions@[i].from@
                        == active_node_id@ && fires.ensures((&self.transitions@[i],), true)
                        && to@ == self.transitions@[i].to@ && forall|j: int|
                        0 <= j < i && self.transitions@[j].from@ == active_node_id@
                            ==> fires.ensures((&self.transitions@[j],), false),
                None => forall|j: int|
                    0 <= j < self.transitions@.len() && self.transitions@[j].from@
                        == active_node_id@ ==> fires.ensures((&self.transitions@[j],), false),
            },
    {
        let mut i: usize = 0;
        while i < self.transitions.len()
            invariant
                i <= self.transitions@.len(),
                forall|k: int|
                    0 <= k < self.transitions@.len() ==> fires.requires((&self.transitions@[k],)),
                forall|j: int|
                    0 <= j < i && self.transitions@[j].from@ == active_node_id@ ==> fires.ensures(
                        (&self.transitions@[j],),
                        false,
                    ),
            decreases self.transitions@.len() - i,
        {
            let t = &self.transitions[i];
            if t.from == *active_node_id {
                let fired = fires(t);
                if fired {
                    return Some(t.to.clone());
                }
            }
            i = i + 1;
        }
        None
    }
}


/// `g` after a check in which `count` factions reached its resonance.
pub open spec fn gate_after(g: PrimePulseGate, count: u32) -> PrimePulseGate {
    PrimePulseGate {
        layer_index: g.layer_index,
        required_prime_count: g.required_prime_count,
        unlocked: g.unlocked || count >= g.required_prime_count,
    }
}

/// A layer of the prime pulse and how many resonant factions unlock it.
#[derive(Debug, Clone, PartialEq, Eq, Structural)]
pub struct PrimePulseGate {
    pub layer_index: u32,
    pub required_prime_count: u32,
    pub unlocked: bool,
}

/// The layered force field around the prime pulse.
#[derive(Debug, Clone, PartialEq, Eq)]
pub struct PrimePulseProgress {
    pub active_layer: u32,
    pub total_layers: u32,
    pub unlocked_layers: u32,
    pub gates: Vec<PrimePulseGate>,
}

/// Number of unlocked gates.
pub open spec fn count_unlocked(gates: Seq<PrimePulseGate>) -> nat
    decreases gates.len(),
{
    if gates.len() == 0 {
        0
    } else {
        count_unlocked(gates.drop_last()) + if gates.last().unlocked { 1nat } else { 0nat }
    }
}

proof fn lemma_count_unlocked_bound(gates: Seq<PrimePulseGate>)
    ensures
        count_unlocked(gates) <= gates.len(),
        count_unlocked(gates) == gates.len() <==> forall|i: int|
            0 <= i < gates.len() ==> #[trigger] gates[i].unlocked,
    decreases gates.len(),
{
    if gates.len() > 0 {
        lemma_count_unlocked_bound(gates.drop_last());
        if count_unlocked(gates) == gates.len() {
            assert forall|i: int| 0 <= i < gates.len() implies #[trigger] gates[i].unlocked by {
                if i < gates.len() - 1 {
                    assert(gates.drop_last()[i] == gates[i]);
                }
            }
        }
        if forall|i: int| 0 <= i < gates.len() ==> #[trigger] gates[i].unlocked {
            assert forall|i: int| 0 <= i < gates.drop_last().len() implies #[trigger] gates.drop_last()[i].unlocked by {
                assert(gates.drop_last()[i] == gates[i]);
            }
            assert(gates[gates.len() - 1].unlocked);
        }
    }
}

/// Across a layer check, unlocked layers stay unlocked, so the number of
/// unlocked layers never drops.
pub proof fn lemma_unlocking_is_monotone(
    before: Seq<PrimePulseGate>,
    after: Seq<PrimePulseGate>,
    counts: Seq<u32>,
)
    requires
        after.len() == before.len(),
        counts.len() == before.len(),
        forall|i: int| 0 <= i < after.len() ==> #[trigger] after[i] == gate_after(before[i], counts[i]),
    ensures
        forall|i: int| 0 <= i < before.len() && #[trigger] before[i].unlocked ==> after[i].unlocked,
        count_unlocked(before) <= count_unlocked(after),
    decreases before.len(),
{
    if before.len() > 0 {
        let n = before.len() - 1;
        assert(after[n] == gate_after(before[n], counts[n]));
        let b = before.drop_last();
        let a = after.drop_last();
        let c = counts.drop_last();
        assert forall|i: int| 0 <= i < a.len() implies #[trigger] a[i] == gate_after(b[i], c[i]) by {
            assert(after[i] == gate_after(before[i], counts[i]));
        }
        lemma_unlocking_is_monotone(b, a, c);
    }
}

impl PrimePulseProgress {
    /// Four layers needing 3, 6, 9 and 12 resonant factions; all locked.
    pub fn default_boot_world() -> (r: Self)
        ensures
            r.gates@ == seq![
                PrimePulseGate { layer_index: 1, required_prime_count: 3, unlocked: false },
                PrimePulseGate { layer_index: 2, required_prime_count: 6, unlocked: false },
                PrimePulseGate { layer_index: 3, required_prime_count: 9, unlocked: false },
                PrimePulseGate { layer_index: 4, required_prime_count: 12, unlocked: false },
            ],
            r.active_layer == 1,
            r.total_layers == 4,
            r.unlocked_layers == 0,
    {
        let mut gates: Vec<PrimePulseGate> = Vec::new();
        gates.push(PrimePulseGate { layer_index: 1, required_prime_count: 3, unlocked: false });
        gates.push(PrimePulseGate { layer_index: 2, required_prime_count: 6, unlocked: false });
        gates.push(PrimePulseGate { layer_index: 3, required_prime_count: 9, unlocked: false });
        gates.push(PrimePulseGate { layer_index: 4, required_prime_count: 12, unlocked: false });
        let total = gates.len() as u32;
        let r = PrimePulseProgress { active_layer: 1, total_layers: total, unlocked_layers: 0, gates };
        assert(r.gates@ =~= seq![
            PrimePulseGate { layer_index: 1, required_prime_count: 3, unlocked: false },
            PrimePulseGate { layer_index: 2, required_prime_count: 6, unlocked: false },
            PrimePulseGate { layer_index: 3, required_prime_count: 9, unlocked: false },
            PrimePulseGate { layer_index: 4, required_prime_count: 12, unlocked: false },
        ]);
        r
    }

    /// Unlocks every locked layer whose required number of factions is met;
    /// `qualifying_counts[i]` is how many factions reach layer `i`'s resonance.
    /// Unlocked layers stay unlocked. The active layer is the one after the
    /// unlocked ones, capped at the total.
    pub fn update_layers(&mut self, qualifying_counts: &Vec<u32>)
        requires
            qualifying_counts@.len() == old(self).gates@.len(),
            old(self).gates@.len() < u32::MAX,
        ensures
            final(self).gates@.len() == old(self).gates@.len(),
            forall|i: int|
                0 <= i < final(self).gates@.len() ==> #[trigger] final(self).gates@[i]
                    == gate_after(old(self).gates@[i], qualifying_counts@[i]),
            final(self).unlocked_layers == count_unlocked(final(self).gates@),
            final(self).unlocked_layers <= final(self).gates@.len(),
            final(self).total_layers == old(self).total_layers,
            final(self).active_layer == if final(self).unlocked_layers + 1
                < old(self).total_layers {
                final(self).unlocked_layers + 1
            } else {
                old(self).total_layers as int
            },
    {
        let n = self.gates.len();
        let ghost before = self.gates@;
        let mut i: usize = 0;
        while i < n
            invariant
                n == self.gates@.len(),
                before == old(self).gates@,
                n == before.len(),
                qualifying_counts@.len() == n,
                i <= n,
                self.total_layers == old(self).total_layers,
                forall|k: int|
                    0 <= k < i ==> #[trigger] self.gates@[k] == gate_after(
                        before[k],
                        qualifying_counts@[k],
                    ),
                forall|k: int| i <= k < n ==> #[trigger] self.gates@[k] == before[k],
            decreases n - i,
        {
            if !self.gates[i].unlocked && qualifying_counts[i] >= self.gates[i].required_prime_count {
                let g = PrimePulseGate {
                    layer_index: self.gates[i].layer_index,
                    required_prime_count: self.gates[i].required_prime_count,
                    unlocked: true,
                };
                self.gates.set(i, g);
            }
            assert(self.gates@[i as int] == gate_after(before[i as int], qualifying_counts@[i as int]));
            i = i + 1;
        }
        let ghost after = self.gates@;
        let mut count: usize = 0;
        let mut j: usize = 0;
        while j < n
            invariant
                n == self.gates@.len(),
                j <= n,
                count == count_unlocked(self.gates@.subrange(0, j as int)),
                count <= j,
                self.gates@ == after,
                self.total_layers == old(self).total_layers,
            decreases n - j,
        {
            assert(self.gates@.subrange(0, j + 1).drop_last() =~= self.gates@.subrange(0, j as int));
            if self.gates[j].unlocked {
                count = count + 1;
            }
            j = j + 1;
        }
        assert(self.gates@.subrange(0, n as int) =~= self.gates@);
        self.unlocked_layers = count as u32;
        let next = self.unlocked_layers + 1;
        self.active_layer = if next < self.total_layers { next } else { self.total_layers };
    }

    /// The force field stands while some layer is still locked.
    pub fn force_field_active(&self) -> (r: bool)
        ensures
            r == (self.unlocked_layers < self.total_layers),
    {
        self.unlocked_layers < self.total_layers
    }
}

/// When the total is the number of layers, the force field is down exactly
/// when every layer is unlocked.
pub proof fn lemma_force_field_down_iff_all_unlocked(p: PrimePulseProgress)
    requires
        p.total_layers == p.gates@.len(),
        p.unlocked_layers == count_unlocked(p.gates@),
    ensures
        !(p.unlocked_layers < p.total_layers) <==> forall|i: int|
            0 <= i < p.gates@.len() ==> #[trigger] p.gates@[i].unlocked,
{
    lemma_count_unlocked_bound(p.gates@);
}


/// Whether some name in `names` is `name`.
fn names_contain(names: &Vec<String>, name: &String) -> (r: bool)
    ensures
        r == names@.map_values(|s: String| s@).contains(name@),
{
    let mut i: usize = 0;
    while i < names.len()
        invariant
            i <= names@.len(),
            forall|k: int| 0 <= k < i ==> names@[k]@ != name@,
        decreases names@.len() - i,
    {
        if names[i] == *name {
            assert(names@.map_values(|s: String| s@)[i as int] == name@);
            return true;
        }
        i = i + 1;
    }
    let ghost mapped = names@.map_values(|s: String| s@);
    assert forall|k: int| 0 <= k < mapped.len() implies #[trigger] mapped[k] != name@ by {
        assert(mapped[k] == names@[k]@);
    }
    false
}

/// The first district (by its list of pulse references) that references `target`.
pub open spec fn first_district_referencing(refs: Seq<Vec<String>>, target: Seq<char>) -> Option<int>
    decreases refs.len(),
{
    if refs.len() == 0 {
        None
    } else if refs[0]@.map_values(|s: String| s@).contains(target) {
        Some(0)
    } else {
        match first_district_referencing(refs.drop_first(), target) {
            Some(i) => Some(i + 1),
            None => None,
        }
    }
}

/// The district whose pulses include `target_node`: the first one listing it.
pub fn district_for_pulse(district_pulse_refs: &Vec<Vec<String>>, target_node: &String) -> (r: Option<
    usize,
>)
    ensures
        match first_district_referencing(district_pulse_refs@, target_node@) {
            Some(i) => r == Some(i as usize),
            None => r is None,
        },
{
    let mut i: usize = 0;
    assert(district_pulse_refs@.subrange(0, district_pulse_refs@.len() as int) =~= district_pulse_refs@);
    while i < district_pulse_refs.len()
        invariant
            i <= district_pulse_refs@.len(),
            first_district_referencing(district_pulse_refs@, target_node@) == match first_district_referencing(
                district_pulse_refs@.subrange(i as int, district_pulse_refs@.len() as int),
                target_node@,
            ) {
                Some(k) => Some(k + i),
                None => None,
            },
        decreases district_pulse_refs@.len() - i,
    {
        let ghost rest = district_pulse_refs@.subrange(i as int, district_pulse_refs@.len() as int);
        assert(rest.drop_first() =~= district_pulse_refs@.subrange(
            i + 1,
            district_pulse_refs@.len() as int,
        ));
        assert(rest[0] == district_pulse_refs@[i as int]);
        if names_contain(&district_pulse_refs[i], target_node) {
            return Some(i);
        }
        i = i + 1;
    }
    None
}

/// The portals a player position sets off, given which portals it is inside
/// (`hits`): those hit whose id has not launched yet, in portal order. Their
/// ids are recorded as launched, so each id launches once.
pub fn portals_to_launch(portal_ids: &Vec<String>, hits: &Vec<bool>, launched: &mut TriggerSet) -> (r:
    Vec<usize>)
    requires
        portal_ids@.len() == hits@.len(),
        old(launched).wf(),
    ensures
        final(launched).wf(),
        final(launched)@ == old(launched)@.union(
            Set::new(|id: Seq<char>| exists|i: int| 0 <= i < portal_ids@.len() && hits@[i] && portal_ids@[i]@ == id),
        ),
        forall|k: int| 0 <= k < r@.len() ==> (#[trigger] r@[k]) < portal_ids@.len() && hits@[r@[k] as int],
        forall|k: int|
            0 <= k < r@.len() ==> !old(launched)@.contains(portal_ids@[#[trigger] r@[k] as int]@),
        forall|a: int, b: int|
            0 <= a < b < r@.len() ==> #[trigger] r@[a] < #[trigger] r@[b] && portal_ids@[r@[a] as int]@
                != portal_ids@[r@[b] as int]@,
        forall|i: int|
            0 <= i < portal_ids@.len() && hits@[i] && !old(launched)@.contains(portal_ids@[i]@)
                ==> exists|k: int| 0 <= k < r@.len() && portal_ids@[#[trigger] r@[k] as int]@ == portal_ids@[i]@,
        forall|k: int, j: int|
            0 <= k < r@.len() && 0 <= j < #[trigger] r@[k] ==> !(#[trigger] hits@[j] && portal_ids@[j]@
                == portal_ids@[r@[k] as int]@),
{
    let mut out: Vec<usize> = Vec::new();
    let mut i: usize = 0;
    while i < portal_ids.len()
        invariant
            portal_ids@.len() == hits@.len(),
            i <= portal_ids@.len(),
            launched.wf(),
            launched@ == old(launched)@.union(
                Set::new(|id: Seq<char>| exists|j: int| 0 <= j < i && hits@[j] && portal_ids@[j]@ == id),
            ),
            forall|k: int| 0 <= k < out@.len() ==> (#[trigger] out@[k]) < i && hits@[out@[k] as int],
            forall|k: int|
                0 <= k < out@.len() ==> !old(launched)@.contains(portal_ids@[#[trigger] out@[k] as int]@),
            forall|a: int, b: int|
                0 <= a < b < out@.len() ==> #[trigger] out@[a] < #[trigger] out@[b]
                    && portal_ids@[out@[a] as int]@ != portal_ids@[out@[b] as int]@,
            forall|j: int|
                0 <= j < i && hits@[j] && !old(launched)@.contains(portal_ids@[j]@) ==> exists|k: int|
                    0 <= k < out@.len() && portal_ids@[#[trigger] out@[k] as int]@ == portal_ids@[j]@,
            forall|k: int, j: int|
                0 <= k < out@.len() && 0 <= j < #[trigger] out@[k] ==> !(#[trigger] hits@[j] && portal_ids@[j]@
                    == portal_ids@[out@[k] as int]@),
        decreases portal_ids@.len() - i,
    {
        let ghost before = launched@;
        let ghost prev_out = out@;
        if hits[i] && !launched.contains(&portal_ids[i]) {
            launched.insert(portal_ids[i].clone());
            out.push(i);
            proof {
                assert forall|k: int, j: int|
                    0 <= k < out@.len() && 0 <= j < #[trigger] out@[k] implies !(#[trigger] hits@[j]
                        && portal_ids@[j]@ == portal_ids@[out@[k] as int]@) by {
                    if k == out@.len() - 1 {
                        if hits@[j] && portal_ids@[j]@ == portal_ids@[i as int]@ {
                            let id = portal_ids@[j]@;
                            assert(exists|jj: int| 0 <= jj < i && hits@[jj] && portal_ids@[jj]@ == id);
                            assert(before.contains(id));
                        }
                    } else {
                        assert(out@[k] == prev_out[k]);
                    }
                }
                assert forall|a: int, b: int| 0 <= a < b < out@.len() implies #[trigger] out@[a] < #[trigger] out@[b]
                    && portal_ids@[out@[a] as int]@ != portal_ids@[out@[b] as int]@ by {
                    if b == out@.len() - 1 {
                        assert(out@[a] == prev_out[a]);
                        let id = portal_ids@[prev_out[a] as int]@;
                        assert(before.contains(id)) by {
                            assert(hits@[prev_out[a] as int]);
                        }
                    } else {
                        assert(out@[a] == prev_out[a]);
                        assert(out@[b] == prev_out[b]);
                    }
                }
                assert forall|j: int|
                    0 <= j < i + 1 && hits@[j] && !old(launched)@.contains(portal_ids@[j]@) implies exists|k: int|
                        0 <= k < out@.len() && portal_ids@[#[trigger] out@[k] as int]@ == portal_ids@[j]@ by {
                    if j == i {
                        assert(out@[out@.len() - 1] == i);
                    } else {
                        let k = choose|k: int| 0 <= k < prev_out.len() && portal_ids@[#[trigger] prev_out[k] as int]@ == portal_ids@[j]@;
                        assert(out@[k] == prev_out[k]);
                    }
                }
            }
        } else {
            proof {
                assert forall|j: int|
                    0 <= j < i + 1 && hits@[j] && !old(launched)@.contains(portal_ids@[j]@) implies exists|k: int|
                        0 <= k < out@.len() && portal_ids@[#[trigger] out@[k] as int]@ == portal_ids@[j]@ by {
                    if j == i {
                        assert(before.contains(portal_ids@[j]@));
                        let id = portal_ids@[j]@;
                        assert(exists|jj: int| 0 <= jj < i && hits@[jj] && portal_ids@[jj]@ == id);
                        let jj = choose|jj: int| 0 <= jj < i && hits@[jj] && portal_ids@[jj]@ == id;
                        let k = choose|k: int| 0 <= k < prev_out.len() && portal_ids@[#[trigger] prev_out[k] as int]@ == portal_ids@[jj]@;
                    }
                }
            }
        }
        assert(launched@ =~= old(launched)@.union(
            Set::new(|id: Seq<char>| exists|j: int| 0 <= j < i + 1 && hits@[j] && portal_ids@[j]@ == id),
        ));
        i = i + 1;
    }
    assert(launched@ =~= old(launched)@.union(
        Set::new(|id: Seq<char>| exists|j: int| 0 <= j < portal_ids@.len() && hits@[j] && portal_ids@[j]@ == id),
    ));
    out
}

/// The index of the first id in `ids` equal to `id`.
pub open spec fn first_index_of(ids: Seq<Seq<char>>, id: Seq<char>) -> Option<int>
    decreases ids.len(),
{
    if ids.len() == 0 {
        None
    } else if ids[0] == id {
        Some(0)
    } else {
        match first_index_of(ids.drop_first(), id) {
            Some(i) => Some(i + 1),
            None => None,
        }
    }
}

/// The faction of the district the player is in: the first district whose id
/// is `active_district`; none when the player is in no district or the id is
/// unknown. `district_primes[i]` is the faction of district `district_ids[i]`.
pub fn active_prime(
    district_ids: &Vec<String>,
    district_primes: &Vec<PrimeFaction>,
    active_district: Option<&String>,
) -> (r: Option<PrimeFaction>)
    requires
        district_ids@.len() == district_primes@.len(),
    ensures
        match active_district {
            None => r is None,
            Some(id) => match first_index_of(district_ids@.map_values(|s: String| s@), id@) {
                Some(i) => r == Some(district_primes@[i]),
                None => r is None,
            },
        },
{
    let id = match active_district {
        None => return None,
        Some(id) => id,
    };
    assert(active_district == Some(id));
    let ghost ids = district_ids@.map_values(|s: String| s@);
    let mut i: usize = 0;
    assert(ids.subrange(0, ids.len() as int) =~= ids);
    while i < district_ids.len()
        invariant
            i <= district_ids@.len(),
            district_ids@.len() == district_primes@.len(),
            ids == district_ids@.map_values(|s: String| s@),
            active_district == Some(id),
            first_index_of(ids, id@) == match first_index_of(ids.subrange(i as int, ids.len() as int), id@) {
                Some(k) => Some(k + i),
                None => None,
            },
        decreases district_ids@.len() - i,
    {
        let ghost rest = ids.subrange(i as int, ids.len() as int);
        assert(rest.drop_first() =~= ids.subrange(i + 1, ids.len() as int));
        assert(rest[0] == district_ids@[i as int]@);
        if district_ids[i] == *id {
            assert(first_index_of(rest, id@) == Some(0int));
            return Some(district_primes[i]);
        }
        i = i + 1;
    }
    None
}

} // verus!
