//! The module instance: binding the imports a compiled module declares to
//! host functions, the two-phase context lifecycle, and the handler
//! invocation controller that decides, from the classification of a
//! failure, whether the simulated state is kept, rolled back, or the
//! error escalated.

use vstd::prelude::*;
use vstd::pervasive::unreached;
use crate::errors::{FatalError, FatalErrorView};
use crate::host::{HostCall, InstanceContext};
use crate::text::contains_seq;
use crate::trap::{Classification, DeterminismLevel, Fault, IntoTrap, spec_classify, TRAP_TIMEOUT};

verus! {

/// What the compiled-module loader reports about one module: the imports
/// it declares, grouped by the sub-module that requests each, the
/// declared API version, and the names of the chain-specific host
/// functions the adapter layer supplies.
pub struct ModuleInfo {
    pub imports: Vec<(String, String)>,
    pub api_version: (u32, u32, u32),
    pub host_fn_names: Vec<String>,
}

/// Whether this API version still requires the legacy imports.
pub open spec fn legacy_api(v: (u32, u32, u32)) -> bool {
    v.0 == 0 && v.1 == 0 && v.2 <= 4
}

/// The import names the harness itself implements.
pub open spec fn is_builtin_name(n: Seq<char>) -> bool {
    ||| n == "ethereum.call"@
    ||| n == "ethereum.encode"@
    ||| n == "ethereum.decode"@
    ||| n == "abort"@
    ||| n == "mockFunction"@
    ||| n == "clearStore"@
    ||| n == "store.get"@
    ||| n == "store.set"@
    ||| n == "store.remove"@
    ||| n == "ipfs.cat"@
    ||| n == "ipfs.map"@
    ||| n == "typeConversion.bytesToString"@
    ||| n == "typeConversion.bytesToHex"@
    ||| n == "typeConversion.bigIntToString"@
    ||| n == "typeConversion.bigIntToHex"@
    ||| n == "typeConversion.stringToH160"@
    ||| n == "typeConversion.bytesToBase58"@
    ||| n == "json.fromBytes"@
    ||| n == "json.try_fromBytes"@
    ||| n == "json.toI64"@
    ||| n == "json.toU64"@
    ||| n == "json.toF64"@
    ||| n == "json.toBigInt"@
    ||| n == "crypto.keccak256"@
    ||| n == "bigInt.plus"@
    ||| n == "bigInt.minus"@
    ||| n == "bigInt.times"@
    ||| n == "bigInt.dividedBy"@
    ||| n == "bigInt.dividedByDecimal"@
    ||| n == "bigInt.mod"@
    ||| n == "bigInt.pow"@
    ||| n == "bigInt.fromString"@
    ||| n == "bigInt.bitOr"@
    ||| n == "bigInt.bitAnd"@
    ||| n == "bigInt.leftShift"@
    ||| n == "bigInt.rightShift"@
    ||| n == "bigDecimal.toString"@
    ||| n == "bigDecimal.fromString"@
    ||| n == "bigDecimal.plus"@
    ||| n == "bigDecimal.minus"@
    ||| n == "bigDecimal.times"@
    ||| n == "bigDecimal.dividedBy"@
    ||| n == "bigDecimal.equals"@
    ||| n == "dataSource.create"@
    ||| n == "dataSource.createWithContext"@
    ||| n == "dataSource.address"@
    ||| n == "dataSource.network"@
    ||| n == "dataSource.context"@
    ||| n == "ens.nameByHash"@
    ||| n == "log.log"@
    ||| n == "registerTest"@
    ||| n == "assert.fieldEquals"@
}

/// Whether `name` equals the literal `lit`.
fn name_matches(name: &String, lit: &str) -> (r: bool)
    ensures
        r == (name@ == lit@),
{
    let s = String::from_str(lit);
    name.eq(&s)
}

/// Whether the harness implements this import name itself.
pub fn is_builtin_import(name: &String) -> (r: bool)
    ensures
        r == is_builtin_name(name@),
{
    name_matches(name, "ethereum.call")
        || name_matches(name, "ethereum.encode")
        || name_matches(name, "ethereum.decode")
        || name_matches(name, "abort")
        || name_matches(name, "mockFunction")
        || name_matches(name, "clearStore")
        || name_matches(name, "store.get")
        || name_matches(name, "store.set")
        || name_matches(name, "store.remove")
        || name_matches(name, "ipfs.cat")
        || name_matches(name, "ipfs.map")
        || name_matches(name, "typeConversion.bytesToString")
        || name_matches(name, "typeConversion.bytesToHex")
        || name_matches(name, "typeConversion.bigIntToString")
        || name_matches(name, "typeConversion.bigIntToHex")
        || name_matches(name, "typeConversion.stringToH160")
        || name_matches(name, "typeConversion.bytesToBase58")
        || name_matches(name, "json.fromBytes")
        || name_matches(name, "json.try_fromBytes")
        || name_matches(name, "json.toI64")
        || name_matches(name, "json.toU64")
        || name_matches(name, "json.toF64")
        || name_matches(name, "json.toBigInt")
        || name_matches(name, "crypto.keccak256")
        || name_matches(name, "bigInt.plus")
        || name_matches(name, "bigInt.minus")
        || name_matches(name, "bigInt.times")
        || name_matches(name, "bigInt.dividedBy")
        || name_matches(name, "bigInt.dividedByDecimal")
        || name_matches(name, "bigInt.mod")
        || name_matches(name, "bigInt.pow")
        || name_matches(name, "bigInt.fromString")
        || name_matches(name, "bigInt.bitOr")
        || name_matches(name, "bigInt.bitAnd")
        || name_matches(name, "bigInt.leftShift")
        || name_matches(name, "bigInt.rightShift")
        || name_matches(name, "bigDecimal.toString")
        || name_matches(name, "bigDecimal.fromString")
        || name_matches(name, "bigDecimal.plus")
        || name_matches(name, "bigDecimal.minus")
        || name_matches(name, "bigDecimal.times")
        || name_matches(name, "bigDecimal.dividedBy")
        || name_matches(name, "bigDecimal.equals")
        || name_matches(name, "dataSource.create")
        || name_matches(name, "dataSource.createWithContext")
        || name_matches(name, "dataSource.address")
        || name_matches(name, "dataSource.network")
        || name_matches(name, "dataSource.context")
        || name_matches(name, "ens.nameByHash")
        || name_matches(name, "log.log")
        || name_matches(name, "registerTest")
        || name_matches(name, "assert.fieldEquals")
}

/// The models of a name list, element by element.
pub open spec fn name_views(s: Seq<String>) -> Seq<Seq<char>> {
    s.map_values(|x: String| x@)
}

/// Whether an import name has an implementation: a built-in, a legacy
/// binding still owed to old API versions, or a chain-specific host
/// function of that name.
pub open spec fn import_bound(n: Seq<char>, legacy: bool, host_fns: Seq<Seq<char>>) -> bool {
    ||| is_builtin_name(n)
    ||| (legacy && (n == "arweave.transactionData"@ || n == "box.profile"@))
    ||| (exists|i: int| 0 <= i < host_fns.len() && host_fns[i] == n)
}

/// Whether some chain-specific host function carries this name.
fn in_host_fns(name: &String, host_fns: &Vec<String>) -> (r: bool)
    ensures
        r == (exists|i: int|
            0 <= i < name_views(host_fns@).len() && name_views(host_fns@)[i] == name@),
{
    let mut i: usize = 0;
    while i < host_fns.len()
        invariant
            i <= host_fns@.len(),
            forall|k: int| 0 <= k < i ==> name_views(host_fns@)[k] != name@,
        decreases host_fns@.len() - i,
    {
        if host_fns[i].eq(name) {
            proof {
                assert(name_views(host_fns@)[i as int] == name@);
            }
            return true;
        }
        i = i + 1;
    }
    false
}

/// The outcome the bytecode call reported: a normal return, or a trap.
#[derive(Debug, Clone)]
pub enum CallOutcome {
    Completed,
    Trapped(Fault),
}

/// How one handler invocation ended when the harness could absorb it.
#[derive(Debug, Clone, PartialEq, Eq)]
pub enum InvocationOutcome {
    /// The handler returned normally; the simulated state is kept.
    Completed,
    /// The handler failed deterministically; the store was restored to
    /// its state from just before the invocation, and the structured
    /// error describes the failure.
    RolledBack(SubgraphError),
}

/// The structured record of a deterministic handler failure.
#[derive(Debug, Clone, PartialEq, Eq)]
pub struct SubgraphError {
    pub subgraph_id: String,
    pub message: String,
    pub block_ptr: Option<crate::host::BlockPtr>,
    pub handler: Option<String>,
    pub deterministic: bool,
}

/// The escalations an invocation can end in: retry later on a reorg,
/// a distinguished timeout naming the configured budget, or an opaque
/// unrecoverable error.
#[derive(Debug, Clone, PartialEq, Eq)]
pub enum MappingError {
    PossibleReorg(String),
    Timeout { handler: String, seconds: u64 },
    Unknown(String),
}

/// One live module instance: its execution context, present from the
/// moment instantiation finishes (or from the first host call the start
/// routine makes) until the instance is torn down.
pub struct WasmInstance {
    pub instance_ctx: Option<InstanceContext>,
}

impl WasmInstance {
    /// The instance context is present and well formed.
    pub open spec fn wf(self) -> bool {
        self.instance_ctx.is_some() && self.instance_ctx.unwrap().wf()
    }

    /// Moves the context out of the instance.
    pub fn take_ctx(&mut self) -> (r: InstanceContext)
        requires
            old(self).instance_ctx.is_some(),
        ensures
            r == old(self).instance_ctx.unwrap(),
            final(self).instance_ctx.is_none(),
    {
        let ctx = self.instance_ctx.take();
        match ctx {
            Some(c) => c,
            None => unreached(),
        }
    }

    /// Borrows the context mutably.
    pub fn instance_ctx_mut(&mut self) -> (r: &mut InstanceContext)
        requires
            old(self).instance_ctx.is_some(),
        ensures
            *r == old(self).instance_ctx.unwrap(),
            final(self).instance_ctx == Some(*final(r)),
    {
        match &mut self.instance_ctx {
            Some(c) => c,
            None => unreached(),
        }
    }

    /// Builds an instance from what the loader reports and a fresh
    /// context. Every import the module declares must have a host
    /// implementation; a missing binding is a fatal setup error reported
    /// before any handler runs. The context starts at nesting depth zero
    /// with both classification flags clear and the given time budget.
    pub fn from_valid_module_with_ctx(
        valid_module: &ModuleInfo,
        ctx: InstanceContext,
        timeout_secs: Option<u64>,
    ) -> (r: Result<WasmInstance, FatalError>)
        requires
            ctx.wf(),
        ensures
            match r {
                Ok(w) => (forall|k: int|
                    0 <= k < valid_module.imports@.len()
                        ==> import_bound(
                            (#[trigger] valid_module.imports@[k]).1@,
                            legacy_api(valid_module.api_version),
                            name_views(valid_module.host_fn_names@),
                        ))
                    && w.wf()
                    && w.instance_ctx.unwrap().store.view_model() == ctx.store.view_model()
                    && w.instance_ctx.unwrap().stubs.view_model() == ctx.stubs.view_model()
                    && w.instance_ctx.unwrap().ledger.results_model() == ctx.ledger.results_model()
                    && w.instance_ctx.unwrap().ledger.logs_model() == ctx.ledger.logs_model()
                    && w.instance_ctx.unwrap().subgraph_id@ == ctx.subgraph_id@
                    && w.instance_ctx.unwrap().block.number == ctx.block.number
                    && w.instance_ctx.unwrap().block.hash@ == ctx.block.hash@
                    && w.instance_ctx.unwrap().timeout_secs == timeout_secs
                    && w.instance_ctx.unwrap().handler_depth == 0
                    && !w.instance_ctx.unwrap().deterministic_host_trap
                    && !w.instance_ctx.unwrap().possible_reorg,
                Err(e) => exists|k: int|
                    0 <= k < valid_module.imports@.len()
                        && !import_bound(
                            (#[trigger] valid_module.imports@[k]).1@,
                            legacy_api(valid_module.api_version),
                            name_views(valid_module.host_fn_names@),
                        )
                        && e@ == FatalErrorView::MissingImport {
                            name: valid_module.imports@[k].1@,
                        },
            },
    {
        let legacy = valid_module.api_version.0 == 0 && valid_module.api_version.1 == 0
            && valid_module.api_version.2 <= 4;
        let mut i: usize = 0;
        while i < valid_module.imports.len()
            invariant
                i <= valid_module.imports@.len(),
                legacy == legacy_api(valid_module.api_version),
                forall|k: int|
                    0 <= k < i ==> import_bound(
                        (#[trigger] valid_module.imports@[k]).1@,
                        legacy_api(valid_module.api_version),
                        name_views(valid_module.host_fn_names@),
                    ),
            decreases valid_module.imports@.len() - i,
        {
            let name = &valid_module.imports[i].1;
            let mut bound = is_builtin_import(name);
            if !bound && legacy {
                bound = name_matches(name, "arweave.transactionData")
                    || name_matches(name, "box.profile");
            }
            if !bound {
                bound = in_host_fns(name, &valid_module.host_fn_names);
            }
            if !bound {
                return Err(FatalError::MissingImport { name: name.clone() });
            }
            i = i + 1;
        }
        Ok(WasmInstance {
            instance_ctx: Some(InstanceContext {
                timeout_secs,
                handler_depth: 0,
                deterministic_host_trap: false,
                possible_reorg: false,
                ..ctx
            }),
        })
    }

    /// Runs the bookkeeping of one handler invocation from its observable
    /// events: the host calls the handler made, in order, and how the
    /// bytecode call itself ended. The nesting counter rises on entry and
    /// falls exactly once on every exit path. A host call that fails cuts
    /// the event stream short, sets the sticky flag its determinism level
    /// dictates, and its message becomes the fault. A deterministic
    /// failure rolls the store back to its state from just before the
    /// invocation and yields the structured error; a possible reorg and a
    /// timeout escalate as their own variants; anything else escalates as
    /// an unrecoverable error. A trap message that names the watchdog's
    /// interrupt presupposes a configured time budget: the watchdog only
    /// runs when one was given.
    pub fn invoke_handler(
        &mut self,
        handler: &String,
        calls: Vec<HostCall>,
        outcome: CallOutcome,
    ) -> (r: Result<InvocationOutcome, MappingError>)
        requires
            old(self).instance_ctx.is_some(),
            old(self).instance_ctx.unwrap().wf(),
            old(self).instance_ctx.unwrap().handler_depth < u32::MAX,
            forall|k: int| 0 <= k < calls@.len() ==> (#[trigger] calls@[k]).wf(),
            (outcome matches CallOutcome::Trapped(f)
                && contains_seq(f@.message, TRAP_TIMEOUT@))
                ==> old(self).instance_ctx.unwrap().timeout_secs.is_some(),
        ensures
            final(self).wf(),
            final(self).instance_ctx.unwrap().handler_depth
                == old(self).instance_ctx.unwrap().handler_depth,
            final(self).instance_ctx.unwrap().subgraph_id@
                == old(self).instance_ctx.unwrap().subgraph_id@,
            final(self).instance_ctx.unwrap().timeout_secs
                == old(self).instance_ctx.unwrap().timeout_secs,
            final(self).instance_ctx.unwrap().block.number
                == old(self).instance_ctx.unwrap().block.number,
            final(self).instance_ctx.unwrap().block.hash@
                == old(self).instance_ctx.unwrap().block.hash@,
            (r matches Ok(InvocationOutcome::Completed))
                ==> outcome matches CallOutcome::Completed,
            (r matches Ok(InvocationOutcome::RolledBack(e)) ==> ({
                &&& final(self).instance_ctx.unwrap().store.view_model()
                    == old(self).instance_ctx.unwrap().store.view_model()
                &&& e.deterministic == true
                &&& e.handler matches Some(h) && h@ == handler@
                &&& e.subgraph_id@ == old(self).instance_ctx.unwrap().subgraph_id@
                &&& e.block_ptr matches Some(b)
                    && b.number == old(self).instance_ctx.unwrap().block.number
            })),
            (r matches Err(MappingError::Timeout { handler: h, seconds: s }) ==> ({
                &&& h@ == handler@
                &&& old(self).instance_ctx.unwrap().timeout_secs == Some(s)
            })),
            calls@.len() == 0 ==> no_calls_contract(
                old(self).instance_ctx.unwrap(),
                final(self).instance_ctx.unwrap(),
                handler@,
                outcome,
                r,
            ),
    {
        let mut ctx = self.take_ctx();
        let ghost o = ctx;
        ctx.possible_reorg = false;
        ctx.deterministic_host_trap = false;
        let snapshot = ctx.store.duplicate();
        ctx.handler_depth = ctx.handler_depth + 1;

        let mut failure: Option<crate::trap::HostError> = None;
        let mut failed = false;
        let mut i: usize = 0;
        while i < calls.len() && !failed
            invariant
                i <= calls@.len(),
                forall|k: int| 0 <= k < calls@.len() ==> (#[trigger] calls@[k]).wf(),
                ctx.wf(),
                ctx.subgraph_id@ == o.subgraph_id@,
                ctx.block.number == o.block.number,
                ctx.block.hash@ == o.block.hash@,
                ctx.timeout_secs == o.timeout_secs,
                ctx.handler_depth == o.handler_depth + 1,
                failed ==> 0 < i,
                !failed ==> failure.is_none() && !ctx.possible_reorg
                    && !ctx.deterministic_host_trap,
                failed ==> failure.is_some()
                    && ctx.possible_reorg == (failure.unwrap().spec_determinism_level()
                        == DeterminismLevel::PossibleReorg)
                    && ctx.deterministic_host_trap == (failure.unwrap().spec_determinism_level()
                        == DeterminismLevel::Deterministic),
                calls@.len() == 0 ==> ctx.store.view_model() == o.store.view_model()
                    && ctx.stubs.view_model() == o.stubs.view_model()
                    && ctx.ledger.results_model() == o.ledger.results_model()
                    && ctx.ledger.logs_model() == o.ledger.logs_model(),
            decreases calls@.len() - i,
        {
            let step = ctx.apply_host_call(&calls[i]);
            match step {
                Ok(()) => {}
                Err(e) => {
                    let level = e.determinism_level();
                    match level {
                        DeterminismLevel::Deterministic => {
                            ctx.deterministic_host_trap = true;
                        }
                        DeterminismLevel::PossibleReorg => {
                            ctx.possible_reorg = true;
                        }
                        DeterminismLevel::Unimplemented => {}
                        DeterminismLevel::NonDeterministic => {}
                    }
                    failure = Some(e);
                    failed = true;
                }
            }
            i = i + 1;
        }

        let effective: Option<Fault> = if failed {
            let e = match failure {
                Some(e) => e,
                None => unreached(),
            };
            Some(e.into_trap())
        } else {
            match outcome {
                CallOutcome::Completed => None,
                CallOutcome::Trapped(f) => Some(f),
            }
        };

        match effective {
            None => {
                ctx.handler_depth = ctx.handler_depth - 1;
                self.instance_ctx = Some(ctx);
                Ok(InvocationOutcome::Completed)
            }
            Some(fault) => {
                let cls = crate::trap::classify(
                    &fault,
                    ctx.possible_reorg,
                    ctx.deterministic_host_trap,
                );
                match cls {
                    Classification::PossibleReorg => {
                        ctx.handler_depth = ctx.handler_depth - 1;
                        self.instance_ctx = Some(ctx);
                        Err(MappingError::PossibleReorg(fault.message))
                    }
                    Classification::Timeout => {
                        ctx.handler_depth = ctx.handler_depth - 1;
                        let timeout = ctx.timeout_secs;
                        self.instance_ctx = Some(ctx);
                        match timeout {
                            Some(seconds) => Err(MappingError::Timeout {
                                handler: handler.clone(),
                                seconds,
                            }),
                            // The watchdog never fired: the marker came in
                            // with a host message; surface it opaquely.
                            None => Err(MappingError::Unknown(fault.message)),
                        }
                    }
                    Classification::Deterministic => {
                        let subgraph_error = SubgraphError {
                            subgraph_id: ctx.subgraph_id.clone(),
                            message: fault.message,
                            block_ptr: Some(ctx.block.duplicate()),
                            handler: Some(handler.clone()),
                            deterministic: true,
                        };
                        ctx.store = snapshot;
                        ctx.handler_depth = ctx.handler_depth - 1;
                        self.instance_ctx = Some(ctx);
                        Ok(InvocationOutcome::RolledBack(subgraph_error))
                    }
                    Classification::NonDeterministic => {
                        ctx.handler_depth = ctx.handler_depth - 1;
                        self.instance_ctx = Some(ctx);
                        Err(MappingError::Unknown(fault.message))
                    }
                }
            }
        }
    }
}

/// The exact outcome of an invocation that made no host calls: the world
/// is left as it was, and the result is decided by the call outcome
/// alone, classified with both sticky flags clear.
pub open spec fn no_calls_contract(
    o: InstanceContext,
    f: InstanceContext,
    handler: Seq<char>,
    outcome: CallOutcome,
    r: Result<InvocationOutcome, MappingError>,
) -> bool {
    &&& f.store.view_model() == o.store.view_model()
    &&& f.stubs.view_model() == o.stubs.view_model()
    &&& f.ledger.results_model() == o.ledger.results_model()
    &&& f.ledger.logs_model() == o.ledger.logs_model()
    &&& match outcome {
        CallOutcome::Completed => r matches Ok(InvocationOutcome::Completed),
        CallOutcome::Trapped(fault) => {
            let cls = spec_classify(fault@, false, false);
            &&& cls == Classification::Timeout ==> (
                r matches Err(MappingError::Timeout { handler: h, seconds: s })
                    && h@ == handler && o.timeout_secs == Some(s)
            )
            &&& cls == Classification::Deterministic ==> (
                r matches Ok(InvocationOutcome::RolledBack(e))
                    && e.message@ == fault@.message
                    && e.deterministic == true
            )
            &&& cls == Classification::NonDeterministic ==> (
                r matches Err(MappingError::Unknown(m)) && m@ == fault@.message
            )
        }
    }
}

} // verus!
