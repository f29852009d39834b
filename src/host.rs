//! The scripting host's side of addon loading: the closed set of calls a
//! script may make, how each is forwarded to the content registry, and the
//! per-addon load outcome.
use vstd::prelude::*;
use crate::registry::{
    ContentDefinition, ContentRegistry, RegistryError, register_outcome, registered, def_id, has_id,
};

verus! {

/// One call that a script made into the host.
#[derive(Clone, Debug)]
pub enum HostCall {
    /// `print(message)`: a diagnostic line; never fails.
    Print { message: String },
    /// `register_addon(id, description)`.
    RegisterAddon { id: String, description: String },
    /// `register_entity(id, icon)`.
    RegisterEntity { id: String, icon: char },
    /// `register_melee(id)`.
    RegisterMelee { id: String },
    /// `register_decoration(id, icon, description)`.
    RegisterDecoration { id: String, icon: char, description: String },
    /// `finish()`: the script is done registering.
    Finish,
    /// A call whose arguments did not fit the function's schema.
    Malformed { function: HostFn },
}

/// The functions that the host offers to scripts; no other is offered.
#[derive(PartialEq, Eq, Structural, Clone, Copy, Debug)]
pub enum HostFn {
    Print,
    RegisterAddon,
    RegisterEntity,
    RegisterMelee,
    RegisterDecoration,
    Finish,
}

/// The kind of one argument in a host function's schema.
#[derive(PartialEq, Eq, Structural, Clone, Copy, Debug)]
pub enum ArgKind {
    Str,
    Char,
}

/// One argument as the script passed it.
#[derive(Clone, Debug)]
pub enum HostArg {
    Str(String),
    Char(char),
    /// A value of any other type.
    Other,
}

/// The arguments that each host function takes, in order.
pub open spec fn schema(f: HostFn) -> Seq<ArgKind> {
    match f {
        HostFn::Print => seq![ArgKind::Str],
        HostFn::RegisterAddon => seq![ArgKind::Str, ArgKind::Str],
        HostFn::RegisterEntity => seq![ArgKind::Str, ArgKind::Char],
        HostFn::RegisterMelee => seq![ArgKind::Str],
        HostFn::RegisterDecoration => seq![ArgKind::Str, ArgKind::Char, ArgKind::Str],
        HostFn::Finish => Seq::empty(),
    }
}

/// Whether an argument is of the given kind.
pub open spec fn arg_fits(a: HostArg, k: ArgKind) -> bool {
    match a {
        HostArg::Str(_) => k == ArgKind::Str,
        HostArg::Char(_) => k == ArgKind::Char,
        HostArg::Other => false,
    }
}

/// Whether the arguments match the function's schema in number and kind.
pub open spec fn args_fit(f: HostFn, args: Seq<HostArg>) -> bool {
    &&& args.len() == schema(f).len()
    &&& forall|i: int| 0 <= i < args.len() ==> arg_fits(#[trigger] args[i], schema(f)[i])
}

/// The string an argument holds.
pub open spec fn str_of(a: HostArg) -> String {
    match a {
        HostArg::Str(s) => s,
        _ => arbitrary(),
    }
}

/// The character an argument holds.
pub open spec fn char_of(a: HostArg) -> char {
    match a {
        HostArg::Char(c) => c,
        _ => arbitrary(),
    }
}

/// The call that a script makes by calling `f` on `args`.
pub open spec fn host_call_spec(f: HostFn, args: Seq<HostArg>) -> HostCall {
    if !args_fit(f, args) {
        HostCall::Malformed { function: f }
    } else {
        match f {
            HostFn::Print => HostCall::Print { message: str_of(args[0]) },
            HostFn::RegisterAddon => HostCall::RegisterAddon {
                id: str_of(args[0]),
                description: str_of(args[1]),
            },
            HostFn::RegisterEntity => HostCall::RegisterEntity {
                id: str_of(args[0]),
                icon: char_of(args[1]),
            },
            HostFn::RegisterMelee => HostCall::RegisterMelee { id: str_of(args[0]) },
            HostFn::RegisterDecoration => HostCall::RegisterDecoration {
                id: str_of(args[0]),
                icon: char_of(args[1]),
                description: str_of(args[2]),
            },
            HostFn::Finish => HostCall::Finish,
        }
    }
}

/// The string in `a`, if it holds one.
fn str_arg(a: &HostArg) -> (r: Option<String>)
    ensures
        match *a {
            HostArg::Str(s) => r == Some(s),
            _ => r is None,
        },
{
    match a {
        HostArg::Str(s) => Some(s.clone()),
        _ => None,
    }
}

/// The character in `a`, if it holds one.
fn char_arg(a: &HostArg) -> (r: Option<char>)
    ensures
        match *a {
            HostArg::Char(c) => r == Some(c),
            _ => r is None,
        },
{
    match a {
        HostArg::Char(c) => Some(*c),
        _ => None,
    }
}

/// Checks a script's call of `f` against the function's schema and turns it
/// into a host call; arguments of the wrong number or kind make it
/// malformed.
pub fn host_call(f: HostFn, args: &Vec<HostArg>) -> (r: HostCall)
    ensures
        r == host_call_spec(f, args@),
{
    let n = args.len();
    match f {
        HostFn::Print => {
            if n == 1 {
                if let Some(message) = str_arg(&args[0]) {
                    return HostCall::Print { message };
                }
            }
        },
        HostFn::RegisterAddon => {
            if n == 2 {
                if let (Some(id), Some(description)) = (str_arg(&args[0]), str_arg(&args[1])) {
                    return HostCall::RegisterAddon { id, description };
                }
            }
        },
        HostFn::RegisterEntity => {
            if n == 2 {
                if let (Some(id), Some(icon)) = (str_arg(&args[0]), char_arg(&args[1])) {
                    return HostCall::RegisterEntity { id, icon };
                }
            }
        },
        HostFn::RegisterMelee => {
            if n == 1 {
                if let Some(id) = str_arg(&args[0]) {
                    return HostCall::RegisterMelee { id };
                }
            }
        },
        HostFn::RegisterDecoration => {
            if n == 3 {
                if let (Some(id), Some(icon), Some(description)) = (
                    str_arg(&args[0]),
                    char_arg(&args[1]),
                    str_arg(&args[2]),
                ) {
                    return HostCall::RegisterDecoration { id, icon, description };
                }
            }
        },
        HostFn::Finish => {
            if n == 0 {
                return HostCall::Finish;
            }
        },
    }
    proof {
        if args_fit(f, args@) {
            assert(forall|i: int| 0 <= i < args@.len() ==> arg_fits(#[trigger] args@[i], schema(f)[i]));
            if n >= 1 {
                assert(arg_fits(args@[0], schema(f)[0]));
            }
            if n >= 2 {
                assert(arg_fits(args@[1], schema(f)[1]));
            }
            if n >= 3 {
                assert(arg_fits(args@[2], schema(f)[2]));
            }
        }
    }
    HostCall::Malformed { function: f }
}

/// The definition that a call forwards to the registry, if it forwards one.
pub open spec fn call_definition(c: HostCall) -> Option<ContentDefinition> {
    match c {
        HostCall::RegisterAddon { id, description } => Some(
            ContentDefinition::Addon { id, description },
        ),
        HostCall::RegisterEntity { id, icon } => Some(ContentDefinition::Entity { id, icon }),
        HostCall::RegisterMelee { id } => Some(ContentDefinition::Melee { id }),
        HostCall::RegisterDecoration { id, icon, description } => Some(
            ContentDefinition::Decoration { id, icon, description },
        ),
        _ => None,
    }
}

/// The answer that a call gets on top of `defs`.
pub open spec fn call_outcome(defs: Seq<ContentDefinition>, c: HostCall) -> Result<
    (),
    RegistryError,
> {
    match c {
        HostCall::Malformed { .. } => Err(RegistryError::InvalidDefinition),
        _ => match call_definition(c) {
            Some(d) => register_outcome(defs, d),
            None => Ok(()),
        },
    }
}

/// The definitions after a call.
pub open spec fn after_call(defs: Seq<ContentDefinition>, c: HostCall) -> Seq<ContentDefinition> {
    match call_definition(c) {
        Some(d) => registered(defs, d),
        None => defs,
    }
}

/// The definitions after a sequence of calls, made in order.
pub open spec fn after_calls(defs: Seq<ContentDefinition>, calls: Seq<HostCall>) -> Seq<
    ContentDefinition,
>
    decreases calls.len(),
{
    if calls.len() == 0 {
        defs
    } else {
        after_call(after_calls(defs, calls.drop_last()), calls.last())
    }
}

/// Host side of `register_addon(id, description)`.
pub fn register_addon(registry: &mut ContentRegistry, id: String, description: String) -> (r:
    Result<(), RegistryError>)
    requires
        old(registry).wf(),
    ensures
        final(registry).wf(),
        r == register_outcome(old(registry)@, ContentDefinition::Addon { id, description }),
        final(registry)@ == registered(old(registry)@, ContentDefinition::Addon { id, description }),
{
    registry.register(ContentDefinition::Addon { id, description })
}

/// Host side of `register_entity(id, icon)`.
pub fn register_entity(registry: &mut ContentRegistry, id: String, icon: char) -> (r: Result<
    (),
    RegistryError,
>)
    requires
        old(registry).wf(),
    ensures
        final(registry).wf(),
        r == register_outcome(old(registry)@, ContentDefinition::Entity { id, icon }),
        final(registry)@ == registered(old(registry)@, ContentDefinition::Entity { id, icon }),
{
    registry.register(ContentDefinition::Entity { id, icon })
}

/// Host side of `register_melee(id)`.
pub fn register_melee(registry: &mut ContentRegistry, id: String) -> (r: Result<(), RegistryError>)
    requires
        old(registry).wf(),
    ensures
        final(registry).wf(),
        r == register_outcome(old(registry)@, ContentDefinition::Melee { id }),
        final(registry)@ == registered(old(registry)@, ContentDefinition::Melee { id }),
{
    registry.register(ContentDefinition::Melee { id })
}

/// Host side of `register_decoration(id, icon, description)`: a placeable
/// item with no features, such as a flower.
pub fn register_decoration(
    registry: &mut ContentRegistry,
    id: String,
    icon: char,
    description: String,
) -> (r: Result<(), RegistryError>)
    requires
        old(registry).wf(),
    ensures
        final(registry).wf(),
        r == register_outcome(
            old(registry)@,
            ContentDefinition::Decoration { id, icon, description },
        ),
        final(registry)@ == registered(
            old(registry)@,
            ContentDefinition::Decoration { id, icon, description },
        ),
{
    registry.register(ContentDefinition::Decoration { id, icon, description })
}

/// Host side of `finish()`: the script is done registering. Nothing is
/// checked after loading yet, so the registry is left alone and the call
/// succeeds.
pub fn exit_mod(registry: &mut ContentRegistry) -> (r: Result<(), RegistryError>)
    requires
        old(registry).wf(),
    ensures
        final(registry).wf(),
        r == Ok::<(), RegistryError>(()),
        final(registry)@ == old(registry)@,
{
    Ok(())
}

/// Forwards one call to its host handler. `print` leaves the registry
/// alone and succeeds; each `register_*` call registers its definition; a
/// malformed call is refused as an invalid definition.
pub fn dispatch(registry: &mut ContentRegistry, call: &HostCall) -> (r: Result<(), RegistryError>)
    requires
        old(registry).wf(),
    ensures
        final(registry).wf(),
        r == call_outcome(old(registry)@, *call),
        final(registry)@ == after_call(old(registry)@, *call),
{
    match call {
        HostCall::Print { .. } => Ok(()),
        HostCall::RegisterAddon { id, description } => register_addon(
            registry,
            id.clone(),
            description.clone(),
        ),
        HostCall::RegisterEntity { id, icon } => register_entity(registry, id.clone(), *icon),
        HostCall::RegisterMelee { id } => register_melee(registry, id.clone()),
        HostCall::RegisterDecoration { id, icon, description } => register_decoration(
            registry,
            id.clone(),
            *icon,
            description.clone(),
        ),
        HostCall::Finish => exit_mod(registry),
        HostCall::Malformed { .. } => Err(RegistryError::InvalidDefinition),
    }
}

/// What a script did when it was evaluated: the host calls it made, in
/// order, and the parse or runtime error that stopped it, if any.
pub struct ScriptRun {
    pub calls: Vec<HostCall>,
    pub error: Option<String>,
}

/// How the load of one addon ended.
#[derive(PartialEq, Eq, Structural, Clone, Copy, Debug)]
pub enum AddonStatus {
    Completed,
    Failed,
}

/// A call that the registry refused: its place among the script's calls and
/// the reason.
#[derive(PartialEq, Eq, Structural, Clone, Copy, Debug)]
pub struct Rejection {
    pub call_index: usize,
    pub error: RegistryError,
}

/// The outcome of loading one addon.
pub struct AddonReport {
    pub status: AddonStatus,
    pub rejected: Vec<Rejection>,
}

/// The status that a run ends in: failed exactly when the script raised an
/// error.
pub open spec fn run_status(run: ScriptRun) -> AddonStatus {
    if run.error is Some {
        AddonStatus::Failed
    } else {
        AddonStatus::Completed
    }
}

/// The calls that are refused when `calls` are made in order on top of
/// `defs`.
pub open spec fn rejections(defs: Seq<ContentDefinition>, calls: Seq<HostCall>) -> Seq<Rejection>
    decreases calls.len(),
{
    if calls.len() == 0 {
        Seq::empty()
    } else {
        let prev = rejections(defs, calls.drop_last());
        match call_outcome(after_calls(defs, calls.drop_last()), calls.last()) {
            Err(e) => prev.push(Rejection { call_index: (calls.len() - 1) as usize, error: e }),
            Ok(_) => prev,
        }
    }
}

/// The definitions after loading each run in order.
pub open spec fn after_runs(defs: Seq<ContentDefinition>, runs: Seq<ScriptRun>) -> Seq<
    ContentDefinition,
>
    decreases runs.len(),
{
    if runs.len() == 0 {
        defs
    } else {
        after_calls(after_runs(defs, runs.drop_last()), runs.last().calls@)
    }
}

/// Loads one addon: forwards each of the script's calls in order. A refused
/// call is recorded and the next one still runs. Registrations made before
/// a script error stand; the addon is then marked failed.
pub fn load_addon(registry: &mut ContentRegistry, run: &ScriptRun) -> (r: AddonReport)
    requires
        old(registry).wf(),
    ensures
        final(registry).wf(),
        final(registry)@ == after_calls(old(registry)@, run.calls@),
        r.status == run_status(*run),
        r.rejected@ == rejections(old(registry)@, run.calls@),
{
    let ghost start = registry@;
    let mut rejected: Vec<Rejection> = Vec::new();
    let mut k: usize = 0;
    while k < run.calls.len()
        invariant
            registry.wf(),
            k <= run.calls@.len(),
            registry@ == after_calls(start, run.calls@.take(k as int)),
            rejected@ == rejections(start, run.calls@.take(k as int)),
        decreases run.calls@.len() - k,
    {
        let ghost prefix = run.calls@.take(k as int);
        assert(run.calls@.take(k + 1).drop_last() =~= prefix);
        match dispatch(registry, &run.calls[k]) {
            Err(e) => rejected.push(Rejection { call_index: k, error: e }),
            Ok(_) => {},
        }
        k += 1;
    }
    assert(run.calls@.take(run.calls@.len() as int) =~= run.calls@);
    let status = match &run.error {
        Some(_) => AddonStatus::Failed,
        None => AddonStatus::Completed,
    };
    AddonReport { status, rejected }
}

/// Loads each addon in order, one report per run. A failed addon never
/// stops the ones after it.
pub fn load_all(registry: &mut ContentRegistry, runs: &Vec<ScriptRun>) -> (r: Vec<AddonReport>)
    requires
        old(registry).wf(),
    ensures
        final(registry).wf(),
        final(registry)@ == after_runs(old(registry)@, runs@),
        r@.len() == runs@.len(),
        forall|i: int|
            0 <= i < runs@.len() ==> (#[trigger] r@[i]).status == run_status(runs@[i])
                && r@[i].rejected@ == rejections(
                after_runs(old(registry)@, runs@.take(i)),
                runs@[i].calls@,
            ),
{
    let ghost start = registry@;
    let mut reports: Vec<AddonReport> = Vec::new();
    let mut i: usize = 0;
    while i < runs.len()
        invariant
            registry.wf(),
            i <= runs@.len(),
            registry@ == after_runs(start, runs@.take(i as int)),
            reports@.len() == i,
            forall|j: int|
                0 <= j < i ==> (#[trigger] reports@[j]).status == run_status(runs@[j])
                    && reports@[j].rejected@ == rejections(
                    after_runs(start, runs@.take(j)),
                    runs@[j].calls@,
                ),
        decreases runs@.len() - i,
    {
        assert(runs@.take(i + 1).drop_last() =~= runs@.take(i as int));
        let report = load_addon(registry, &runs[i]);
        reports.push(report);
        i += 1;
    }
    assert(runs@.take(runs@.len() as int) =~= runs@);
    reports
}

/// The definitions that `calls` forward, one per call.
pub open spec fn call_defs(calls: Seq<HostCall>) -> Seq<ContentDefinition> {
    calls.map_values(|c: HostCall| call_definition(c)->0)
}

/// Every call registers a definition with a non-empty id, new on top of
/// `defs`, and no two of the calls share an id.
pub open spec fn registers_fresh(defs: Seq<ContentDefinition>, calls: Seq<HostCall>) -> bool {
    &&& forall|k: int|
        0 <= k < calls.len() ==> (#[trigger] call_definition(calls[k])) is Some
            && def_id(call_definition(calls[k])->0).len() > 0
            && !has_id(defs, def_id(call_definition(calls[k])->0))
    &&& forall|i: int, j: int|
        0 <= i < calls.len() && 0 <= j < calls.len() && i != j ==> def_id(
            call_definition(#[trigger] calls[i])->0,
        ) != def_id(call_definition(#[trigger] calls[j])->0)
}

/// Calls that each register a new, well-formed definition all succeed, and
/// append their definitions in order.
pub proof fn lemma_fresh_calls_all_register(defs: Seq<ContentDefinition>, calls: Seq<HostCall>)
    requires
        registers_fresh(defs, calls),
    ensures
        after_calls(defs, calls) == defs + call_defs(calls),
        rejections(defs, calls) == Seq::<Rejection>::empty(),
    decreases calls.len(),
{
    if calls.len() > 0 {
        let prefix = calls.drop_last();
        assert forall|k: int| 0 <= k < prefix.len() implies (#[trigger] call_definition(prefix[k])) is Some
            && def_id(call_definition(prefix[k])->0).len() > 0
            && !has_id(defs, def_id(call_definition(prefix[k])->0)) by {
            assert(prefix[k] == calls[k]);
        }
        assert forall|i: int, j: int|
            0 <= i < prefix.len() && 0 <= j < prefix.len() && i != j implies def_id(
            call_definition(#[trigger] prefix[i])->0,
        ) != def_id(call_definition(#[trigger] prefix[j])->0) by {
            assert(prefix[i] == calls[i] && prefix[j] == calls[j]);
        }
        lemma_fresh_calls_all_register(defs, prefix);
        let before = defs + call_defs(prefix);
        let last = calls.len() - 1;
        let d = call_definition(calls[last])->0;
        assert(call_definition(calls[last]) is Some);
        if has_id(before, def_id(d)) {
            let w = choose|w: int| 0 <= w < before.len() && #[trigger] def_id(before[w]) == def_id(d);
            if w < defs.len() {
                assert(def_id(defs[w]) == def_id(d));
            } else {
                let q = w - defs.len();
                assert(before[w] == call_definition(prefix[q])->0);
                assert(prefix[q] == calls[q]);
            }
        }
        assert(before.push(d) =~= defs + call_defs(calls));
    }
}

/// A failed addon never keeps a later one from loading: whatever the first
/// run did, and whether or not it raised an error, a second run whose calls
/// each register a new, well-formed definition registers all of them.
pub proof fn lemma_failure_does_not_block_later_addon(
    defs: Seq<ContentDefinition>,
    earlier: ScriptRun,
    later: ScriptRun,
)
    requires
        registers_fresh(after_calls(defs, earlier.calls@), later.calls@),
    ensures
        after_runs(defs, seq![earlier, later]) == after_calls(defs, earlier.calls@) + call_defs(
            later.calls@,
        ),
{
    let runs = seq![earlier, later];
    assert(runs.drop_last() =~= seq![earlier]);
    assert(seq![earlier].drop_last() =~= Seq::<ScriptRun>::empty());
    assert(after_runs(defs, Seq::<ScriptRun>::empty()) == defs);
    assert(after_runs(defs, seq![earlier]) == after_calls(defs, earlier.calls@));
    assert(runs.last() == later);
    lemma_fresh_calls_all_register(after_calls(defs, earlier.calls@), later.calls@);
}

} // verus!
