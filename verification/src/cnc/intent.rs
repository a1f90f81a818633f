//! The intent of a plan: one pipeline node per plan step, each restoring
//! the cleared state of the step before it, and a final node that links
//! the outputs of all steps in order with safe-Z travel.
use vstd::prelude::*;

use crate::ops::markers::Marker;
use crate::ops::types::ZERO_BITS;
use crate::text::{append_decimal, decimal, lemma_decimal_digits, lemma_decimal_injective, str_views};

verus! {

/// The bits of the `f64` value `1.0`.
pub const ONE_BITS: u64 = 0x3FF0_0000_0000_0000u64;

/// What the intent reads of one plan step: its assembler (a shared handle
/// `A`) and the assembler's name, the face it works on (empty: every face
/// of the part), and the region boundary `R` it is restricted to.
#[derive(Debug)]
pub struct IntentStep<A, R> {
    pub name: String,
    pub assembler: A,
    pub face_id: String,
    pub region_boundary: R,
}

/// How the inputs of an aggregation group are linked.
#[derive(Debug)]
pub enum LinkMode {
    /// The inputs are concatenated with nothing between them.
    Unlinked,
    /// Travel moves between consecutive inputs retract to `safe_z`
    /// (`f64` bits), and the group ends with a lift to it.
    Sequential { safe_z: u64 },
}

/// One input of an aggregation group: the node whose output it takes,
/// where that output is placed (a row-major 4x4 matrix of `f64` bits),
/// its workpiece and its target size (`f64` bits).
#[derive(Debug)]
pub struct AggregateInput {
    pub source_key: String,
    pub placement_matrix: Vec<u64>,
    pub uid: String,
    pub target_dimensions: (u64, u64),
}

/// A group of inputs with the markers written around it and its link mode.
#[derive(Debug)]
pub struct AggregateGroup {
    pub start_markers: Vec<Marker>,
    pub inputs: Vec<AggregateInput>,
    pub end_markers: Vec<Marker>,
    pub link_mode: LinkMode,
}

/// The machine's rates used for time estimates (`f64` bits).
#[derive(Debug)]
pub struct MachineParams {
    pub default_feed_rate: u64,
    pub default_rapid_rate: u64,
    pub acceleration: u64,
}

/// What the final node aggregates: its groups between the wrapping
/// markers, the machine's rates, and how many transformers run on the
/// result.
#[derive(Debug)]
pub struct AggregateSpec {
    pub wrap_start: Vec<Marker>,
    pub groups: Vec<AggregateGroup>,
    pub wrap_end: Vec<Marker>,
    pub machine: MachineParams,
    pub transformer_count: usize,
}

/// What a node of the intent runs.
#[derive(Debug)]
pub enum IntentStage<A, R, P> {
    /// Run `assembler` (that of plan step `step`) on the face `face_id` of
    /// `part` (every face when empty), restricted to `region_boundary`,
    /// first restoring the cleared state produced by the nodes named in
    /// `state_source_keys`, then running `transformer_count` transformers
    /// on the result.
    Compute {
        step: usize,
        assembler: A,
        part: P,
        face_id: String,
        region_boundary: R,
        workpiece_uid: String,
        transformer_count: usize,
        state_source_keys: Vec<String>,
        profile: bool,
    },
    /// Aggregate the outputs of other nodes as `spec` says.
    Aggregate { spec: AggregateSpec },
}

/// One node of the intent: its key, the generation it belongs to, its
/// version token, whether its result may be cached, and what it runs.
#[derive(Debug)]
pub struct IntentNode<A, R, P> {
    pub key: String,
    pub generation_id: u64,
    pub version: u64,
    pub cacheable: bool,
    pub stage: IntentStage<A, R, P>,
}

/// The key of the node of step `i`, whose assembler is called `name`:
/// `step:<i>:<name>`.
pub open spec fn step_key(i: nat, name: Seq<char>) -> Seq<char> {
    seq!['s', 't', 'e', 'p', ':'] + decimal(i) + seq![':'] + name
}

/// The key of the final linking node: `aggregate:<generation_id>`.
pub open spec fn aggregate_key(generation_id: nat) -> Seq<char> {
    seq!['a', 'g', 'g', 'r', 'e', 'g', 'a', 't', 'e', ':'] + decimal(generation_id)
}

/// The names of the steps' assemblers, in step order.
pub open spec fn step_names<A, R>(steps: Seq<IntentStep<A, R>>) -> Seq<Seq<char>> {
    Seq::new(steps.len(), |i: int| steps[i].name@)
}

/// The keys of the step nodes, in step order.
pub open spec fn step_keys(names: Seq<Seq<char>>) -> Seq<Seq<char>> {
    Seq::new(names.len(), |i: int| step_key(i as nat, names[i]))
}

/// The identity placement: a row-major 4x4 matrix with `1.0` on the
/// diagonal and `0.0` elsewhere, as `f64` bits.
pub open spec fn identity_bits() -> Seq<u64> {
    Seq::new(16, |k: int| if k / 4 == k % 4 { ONE_BITS } else { ZERO_BITS })
}

/// `node` is the node of step `i`: keyed by its index and name, version
/// token 0 and cacheable, running a clone of the step's assembler on the
/// step's face of a clone of `part`, restricted to a clone of the step's
/// region boundary, with no workpiece, no transformers and no profiling,
/// after restoring the state of the previous step's node (none for the
/// first).
pub open spec fn is_step_node<A: Clone, R: Clone, P: Clone>(
    node: IntentNode<A, R, P>,
    steps: Seq<IntentStep<A, R>>,
    part: P,
    i: int,
    generation_id: u64,
) -> bool {
    &&& node.key@ == step_key(i as nat, steps[i].name@)
    &&& node.generation_id == generation_id
    &&& node.version == 0
    &&& node.cacheable
    &&& match node.stage {
        IntentStage::Compute {
            step,
            assembler,
            part: node_part,
            face_id,
            region_boundary,
            workpiece_uid,
            transformer_count,
            state_source_keys,
            profile,
        } => {
            &&& step == i
            &&& cloned(steps[i].assembler, assembler)
            &&& cloned(part, node_part)
            &&& face_id@ == steps[i].face_id@
            &&& cloned(steps[i].region_boundary, region_boundary)
            &&& workpiece_uid@.len() == 0
            &&& transformer_count == 0
            &&& !profile
            &&& str_views(state_source_keys@) == if i == 0 {
                Seq::<Seq<char>>::empty()
            } else {
                seq![step_key((i - 1) as nat, steps[i - 1].name@)]
            }
        },
        IntentStage::Aggregate { .. } => false,
    }
}

/// `input` takes the output of the node keyed `key`, unplaced (identity
/// placement, no workpiece, zero target size).
pub open spec fn is_plain_input(input: AggregateInput, key: Seq<char>) -> bool {
    &&& input.source_key@ == key
    &&& input.placement_matrix@ == identity_bits()
    &&& input.uid@.len() == 0
    &&& input.target_dimensions == (ZERO_BITS, ZERO_BITS)
}

/// `group` holds one plain input per key of `keys`, in order, with no
/// markers around it, linked sequentially at `safe_z`.
pub open spec fn is_sequential_group(group: AggregateGroup, keys: Seq<Seq<char>>, safe_z: u64) -> bool {
    &&& group.start_markers@.len() == 0
    &&& group.end_markers@.len() == 0
    &&& group.link_mode == LinkMode::Sequential { safe_z }
    &&& group.inputs@.len() == keys.len()
    &&& forall|i: int| 0 <= i < keys.len() ==> is_plain_input(#[trigger] group.inputs@[i], keys[i])
}

/// `node` is the final node: keyed by the generation, version token 0 and
/// cacheable, aggregating one sequential group of every step node's
/// output, in step order, with no wrapping markers, zero machine rates and
/// no transformers.
pub open spec fn is_aggregate_node<A, R, P>(
    node: IntentNode<A, R, P>,
    steps: Seq<IntentStep<A, R>>,
    safe_z: u64,
    generation_id: u64,
) -> bool {
    &&& node.key@ == aggregate_key(generation_id as nat)
    &&& node.generation_id == generation_id
    &&& node.version == 0
    &&& node.cacheable
    &&& match node.stage {
        IntentStage::Aggregate { spec } => {
            &&& spec.wrap_start@.len() == 0
            &&& spec.wrap_end@.len() == 0
            &&& spec.transformer_count == 0
            &&& spec.machine.default_feed_rate == ZERO_BITS
            &&& spec.machine.default_rapid_rate == ZERO_BITS
            &&& spec.machine.acceleration == ZERO_BITS
            &&& spec.groups@.len() == 1
            &&& is_sequential_group(spec.groups@[0], step_keys(step_names(steps)), safe_z)
        },
        IntentStage::Compute { .. } => false,
    }
}

fn identity_placement() -> (r: Vec<u64>)
    ensures
        r@ == identity_bits(),
{
    let mut r: Vec<u64> = Vec::new();
    let mut k: usize = 0;
    while k < 16
        invariant
            k <= 16,
            r@ == identity_bits().take(k as int),
        decreases 16 - k,
    {
        let v = if k / 4 == k % 4 { ONE_BITS } else { ZERO_BITS };
        r.push(v);
        k = k + 1;
        assert(r@ =~= identity_bits().take(k as int));
    }
    assert(r@ =~= identity_bits());
    r
}

fn make_step_key(i: usize, name: &String) -> (r: String)
    ensures
        r@ == step_key(i as nat, name@),
{
    let mut key = String::new();
    key.append("step:");
    append_decimal(&mut key, i as u64);
    key.append(":");
    key.append(name.as_str());
    proof {
        reveal_strlit("step:");
        reveal_strlit(":");
        assert(key@ =~= step_key(i as nat, name@));
    }
    key
}

/// The intent of a plan whose steps are `steps`, on `part`: one compute
/// node per step, in order, each running (a clone of) the step's assembler
/// on the step's face of (a clone of) `part` within the step's region
/// boundary, after restoring the cleared state of the step before it, then
/// one node
/// linking all their outputs in one sequential group with safe-Z travel.
/// Every node has version token 0 and may be cached. A plan without steps
/// has an empty intent.
pub fn create_intent<A: Clone, R: Clone, P: Clone>(
    steps: &Vec<IntentStep<A, R>>,
    part: &P,
    safe_z: u64,
    generation_id: u64,
) -> (r: Vec<IntentNode<A, R, P>>)
    ensures
        steps@.len() == 0 ==> r@.len() == 0,
        steps@.len() > 0 ==> r@.len() == steps@.len() + 1 && is_aggregate_node(
            r@.last(),
            steps@,
            safe_z,
            generation_id,
        ),
        forall|i: int| 0 <= i < steps@.len() ==> is_step_node(#[trigger] r@[i], steps@, *part, i, generation_id),
{
    let ghost keys_spec = step_keys(step_names(steps@));
    let n = steps.len();
    let mut nodes: Vec<IntentNode<A, R, P>> = Vec::new();
    let mut keys: Vec<String> = Vec::new();
    let mut i: usize = 0;
    while i < n
        invariant
            n == steps@.len(),
            keys_spec == step_keys(step_names(steps@)),
            i <= n,
            nodes@.len() == i,
            keys@.len() == i,
            forall|k: int| 0 <= k < i ==> is_step_node(#[trigger] nodes@[k], steps@, *part, k, generation_id),
            forall|k: int| 0 <= k < i ==> (#[trigger] keys@[k])@ == keys_spec[k],
        decreases n - i,
    {
        let key = make_step_key(i, &steps[i].name);
        let mut sources: Vec<String> = Vec::new();
        if i > 0 {
            sources.push(keys[i - 1].clone());
        }
        proof {
            if i == 0 {
                assert(str_views(sources@) =~= Seq::<Seq<char>>::empty());
            } else {
                assert(keys@[i - 1]@ == keys_spec[i - 1]);
                assert(str_views(sources@) =~= seq![step_key((i - 1) as nat, steps@[i - 1].name@)]);
            }
        }
        nodes.push(
            IntentNode {
                key: key.clone(),
                generation_id,
                version: 0,
                cacheable: true,
                stage: IntentStage::Compute {
                    step: i,
                    assembler: steps[i].assembler.clone(),
                    part: part.clone(),
                    face_id: steps[i].face_id.clone(),
                    region_boundary: steps[i].region_boundary.clone(),
                    workpiece_uid: String::new(),
                    transformer_count: 0,
                    state_source_keys: sources,
                    profile: false,
                },
            },
        );
        keys.push(key);
        i = i + 1;
    }
    if n == 0 {
        return nodes;
    }
    let mut inputs: Vec<AggregateInput> = Vec::new();
    let mut j: usize = 0;
    while j < n
        invariant
            n == keys@.len(),
            n == keys_spec.len(),
            j <= n,
            inputs@.len() == j,
            forall|k: int| 0 <= k < n ==> (#[trigger] keys@[k])@ == keys_spec[k],
            forall|k: int| 0 <= k < j ==> is_plain_input(#[trigger] inputs@[k], keys_spec[k]),
        decreases n - j,
    {
        let placement = identity_placement();
        inputs.push(
            AggregateInput {
                source_key: keys[j].clone(),
                placement_matrix: placement,
                uid: String::new(),
                target_dimensions: (ZERO_BITS, ZERO_BITS),
            },
        );
        proof {
            assert(keys@[j as int]@ == keys_spec[j as int]);
        }
        j = j + 1;
    }
    let mut groups: Vec<AggregateGroup> = Vec::new();
    groups.push(
        AggregateGroup {
            start_markers: Vec::new(),
            inputs,
            end_markers: Vec::new(),
            link_mode: LinkMode::Sequential { safe_z },
        },
    );
    let mut agg_key = String::new();
    agg_key.append("aggregate:");
    append_decimal(&mut agg_key, generation_id);
    proof {
        reveal_strlit("aggregate:");
        assert(agg_key@ =~= aggregate_key(generation_id as nat));
    }
    nodes.push(
        IntentNode {
            key: agg_key,
            generation_id,
            version: 0,
            cacheable: true,
            stage: IntentStage::Aggregate {
                spec: AggregateSpec {
                    wrap_start: Vec::new(),
                    groups,
                    wrap_end: Vec::new(),
                    machine: MachineParams {
                        default_feed_rate: ZERO_BITS,
                        default_rapid_rate: ZERO_BITS,
                        acceleration: ZERO_BITS,
                    },
                    transformer_count: 0,
                },
            },
        },
    );
    nodes
}

/// The nodes of distinct steps have distinct keys, whatever the steps'
/// names: the index is written between the first two colons, in digits.
pub proof fn lemma_step_keys_distinct(i: nat, a: Seq<char>, j: nat, b: Seq<char>)
    requires
        i != j,
    ensures
        step_key(i, a) != step_key(j, b),
{
    lemma_decimal_digits(i);
    lemma_decimal_digits(j);
    let di = decimal(i);
    let dj = decimal(j);
    let li = di.len() as int;
    let lj = dj.len() as int;
    let ki = step_key(i, a);
    let kj = step_key(j, b);
    if ki == kj {
        if li < lj {
            assert(ki[5 + li] == ':');
            assert(kj[5 + li] == dj[li]);
        } else if lj < li {
            assert(kj[5 + lj] == ':');
            assert(ki[5 + lj] == di[lj]);
        } else {
            assert(ki.subrange(5, 5 + li) =~= di);
            assert(kj.subrange(5, 5 + lj) =~= dj);
            lemma_decimal_injective(i, j);
        }
    }
}

/// No step node shares its key with the final linking node.
pub proof fn lemma_step_key_not_aggregate(i: nat, name: Seq<char>, generation_id: nat)
    ensures
        step_key(i, name) != aggregate_key(generation_id),
{
    assert(step_key(i, name)[0] == 's');
    assert(aggregate_key(generation_id)[0] == 'a');
}

} // verus!
