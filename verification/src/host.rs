//! The execution context host functions run against, and the host
//! functions themselves: store access, call stubbing, logging, test
//! registration and field assertions. Each call mutates the simulated
//! world or records a test failure; fatal misconfiguration surfaces as an
//! error instead of a result.

use vstd::prelude::*;
use crate::errors::{FatalError, FatalErrorView};
use crate::ledger::{Level, TestLedger, spec_level_from_u32, level_from_u32, results_has};
use crate::store::{Entity, MockStore};
use crate::stubs::{CallStubRegistry, CallToken, fingerprint, spec_register, stub_has, stub_value, token_views};
use crate::trap::HostError;
use crate::value::value_text;

verus! {

/// The simulated block pointer diagnostics name.
#[derive(Debug, Clone, PartialEq, Eq)]
pub struct BlockPtr {
    pub number: u64,
    pub hash: Vec<u8>,
}

impl BlockPtr {
    /// A copy with the same number and hash.
    pub fn duplicate(&self) -> (r: BlockPtr)
        ensures
            r.number == self.number,
            r.hash@ == self.hash@,
    {
        BlockPtr { number: self.number, hash: crate::value::dup_bytes(&self.hash) }
    }
}

/// The live state tying one module instance to one simulated world.
pub struct InstanceContext {
    pub store: MockStore,
    pub stubs: CallStubRegistry,
    pub ledger: TestLedger,
    pub subgraph_id: String,
    pub block: BlockPtr,
    pub timeout_secs: Option<u64>,
    pub handler_depth: u32,
    pub deterministic_host_trap: bool,
    pub possible_reorg: bool,
}

/// What one field assertion finds, checked in this order: the entity
/// type, then the id, then the field, then the canonical value.
#[verifier::ext_equal]
pub enum AssertOutcome {
    Pass,
    NoType,
    NoEntity,
    NoField,
    Mismatch,
}

/// The verdict of asserting that a stored field equals `expected`.
pub open spec fn assert_outcome(
    s: MockStore,
    t: Seq<char>,
    id: Seq<char>,
    f: Seq<char>,
    expected: Seq<char>,
) -> AssertOutcome {
    if !s.has_entity_type(t) {
        AssertOutcome::NoType
    } else if !s.has_entity(t, id) {
        AssertOutcome::NoEntity
    } else if !entity_model_has(s.entity_model(t, id), f) {
        AssertOutcome::NoField
    } else if value_text(entity_model_value(s.entity_model(t, id), f)) != expected {
        AssertOutcome::Mismatch
    } else {
        AssertOutcome::Pass
    }
}

/// Whether an entity model carries this field name.
pub open spec fn entity_model_has(m: crate::store::EntityModel, f: Seq<char>) -> bool {
    exists|i: int| 0 <= i < m.len() && m[i].0 == f
}

/// The value an entity model carries under this field name.
pub open spec fn entity_model_value(m: crate::store::EntityModel, f: Seq<char>) -> crate::value::ValueView {
    m[choose|i: int| 0 <= i < m.len() && m[i].0 == f].1
}

/// The diagnostic for a missing entity type.
pub open spec fn msg_no_type(t: Seq<char>) -> Seq<char> {
    "(assert.fieldEquals) No entities with type '"@ + t + "' found."@
}

/// The diagnostic for a missing id under a known entity type.
pub open spec fn msg_no_entity(t: Seq<char>, id: Seq<char>) -> Seq<char> {
    "(assert.fieldEquals) No entity with type '"@ + t + "' and id '"@ + id + "' found."@
}

/// The diagnostic for a missing field on a known entity.
pub open spec fn msg_no_field(f: Seq<char>, t: Seq<char>, id: Seq<char>) -> Seq<char> {
    "(assert.fieldEquals) No field named '"@ + f + "' on entity with type '"@ + t
        + "' and id '"@ + id + "' found."@
}

/// The diagnostic for a field whose canonical form differs from the
/// expected one; it names both.
pub open spec fn msg_mismatch(f: Seq<char>, expected: Seq<char>, actual: Seq<char>) -> Seq<char> {
    "(assert.fieldEquals) Expected field '"@ + f + "' to equal '"@ + expected
        + "', but was '"@ + actual + "' instead."@
}

/// The diagnostic for removing a record that does not exist; it names
/// both the type and the id.
pub open spec fn msg_remove_missing(t: Seq<char>, id: Seq<char>) -> Seq<char> {
    "(store.remove) Entity with type '"@ + t + "' and id '"@ + id
        + "' does not exist. Problem originated from store.remove()"@
}

/// The message a failing field assertion records for each verdict.
pub open spec fn assert_fail_message(
    outcome: AssertOutcome,
    s: MockStore,
    t: Seq<char>,
    id: Seq<char>,
    f: Seq<char>,
    expected: Seq<char>,
) -> Seq<char> {
    match outcome {
        AssertOutcome::NoType => msg_no_type(t),
        AssertOutcome::NoEntity => msg_no_entity(t, id),
        AssertOutcome::NoField => msg_no_field(f, t, id),
        AssertOutcome::Mismatch => msg_mismatch(
            f,
            expected,
            value_text(entity_model_value(s.entity_model(t, id), f)),
        ),
        AssertOutcome::Pass => Seq::<char>::empty(),
    }
}

/// The four failure diagnostics are textually distinct, whatever the
/// type, id, field and values involved, and they are produced in
/// checking order: type before id before field before value.
pub proof fn lemma_assert_messages_distinct(
    t: Seq<char>,
    id: Seq<char>,
    f: Seq<char>,
    expected: Seq<char>,
    actual: Seq<char>,
)
    ensures
        msg_no_type(t) != msg_no_entity(t, id),
        msg_no_type(t) != msg_no_field(f, t, id),
        msg_no_type(t) != msg_mismatch(f, expected, actual),
        msg_no_entity(t, id) != msg_no_field(f, t, id),
        msg_no_entity(t, id) != msg_mismatch(f, expected, actual),
        msg_no_field(f, t, id) != msg_mismatch(f, expected, actual),
{
    reveal_strlit("(assert.fieldEquals) No entities with type '");
    reveal_strlit("(assert.fieldEquals) No entity with type '");
    reveal_strlit("(assert.fieldEquals) No field named '");
    reveal_strlit("(assert.fieldEquals) Expected field '");
    assert(msg_no_type(t)[29] == 'i');
    assert(msg_no_entity(t, id)[29] == 'y');
    assert(msg_no_type(t)[24] == 'e');
    assert(msg_no_entity(t, id)[24] == 'e');
    assert(msg_no_field(f, t, id)[24] == 'f');
    assert(msg_no_type(t)[21] == 'N');
    assert(msg_no_entity(t, id)[21] == 'N');
    assert(msg_no_field(f, t, id)[21] == 'N');
    assert(msg_mismatch(f, expected, actual)[21] == 'E');
}

impl InstanceContext {
    /// Every registry the context owns is well formed.
    pub open spec fn wf(self) -> bool {
        &&& self.store.wf()
        &&& self.stubs.wf()
        &&& self.ledger.wf()
    }

    /// Records one leveled log line. The critical level aborts with the
    /// message; the error level fails the current test, which must exist;
    /// any other level is recorded as an ordinary line.
    pub fn log(&mut self, level: u32, message: String) -> (r: Result<(), HostError>)
        requires
            old(self).wf(),
        ensures
            final(self).wf(),
            final(self).store == old(self).store,
            final(self).stubs == old(self).stubs,
            unrelated_preserved(*old(self), *final(self)),
            match r {
                Ok(()) => if level == 1 {
                    old(self).ledger.results_model().len() > 0
                        && final(self).ledger.results_model()
                            == old(self).ledger.results_model().update(
                                old(self).ledger.results_model().len() - 1,
                                (old(self).ledger.results_model().last().0, false),
                            )
                        && final(self).ledger.logs_model()
                            == old(self).ledger.logs_model().push((message@, Level::ERROR))
                } else {
                    level != 0
                        && final(self).ledger.results_model() == old(self).ledger.results_model()
                        && final(self).ledger.logs_model()
                            == old(self).ledger.logs_model().push(
                                (message@, spec_level_from_u32(level)),
                            )
                },
                Err(e) => final(self).ledger == old(self).ledger
                    && (
                        (level == 0
                            && e@ == crate::trap::HostErrorView::Fatal(
                                FatalErrorView::CriticalLog { message: message@ },
                            ))
                        || (level == 1
                            && old(self).ledger.results_model().len() == 0
                            && e@ == crate::trap::HostErrorView::Fatal(
                                FatalErrorView::NoCurrentTest,
                            ))
                    ),
            },
    {
        if level == 0 {
            return Err(HostError::Fatal(FatalError::CriticalLog { message }));
        }
        if level == 1 {
            if !self.ledger.has_tests() {
                return Err(HostError::Fatal(FatalError::NoCurrentTest));
            }
            self.ledger.mark_current_failed(message);
            return Ok(());
        }
        let lv = level_from_u32(level);
        self.ledger.log_line(message, lv);
        Ok(())
    }

    /// Drops every record of the simulated store.
    pub fn clear_store(&mut self) -> (r: Result<(), HostError>)
        requires
            old(self).wf(),
        ensures
            final(self).wf(),
            r is Ok,
            final(self).store.view_model() == Seq::<(Seq<char>, Seq<char>, crate::store::EntityModel)>::empty(),
            final(self).stubs == old(self).stubs,
            final(self).ledger == old(self).ledger,
            unrelated_preserved(*old(self), *final(self)),
    {
        self.store.clear();
        proof {
            assert(self.store.view_model()
                =~= Seq::<(Seq<char>, Seq<char>, crate::store::EntityModel)>::empty());
        }
        Ok(())
    }

    /// Registers a new passing test; a duplicate name is fatal and
    /// changes nothing.
    pub fn register_test(&mut self, name: String) -> (r: Result<(), HostError>)
        requires
            old(self).wf(),
        ensures
            final(self).wf(),
            final(self).store == old(self).store,
            final(self).stubs == old(self).stubs,
            unrelated_preserved(*old(self), *final(self)),
            match r {
                Ok(()) => !results_has(old(self).ledger.results_model(), name@)
                    && final(self).ledger.results_model()
                        == old(self).ledger.results_model().push((name@, true))
                    && final(self).ledger.logs_model()
                        == old(self).ledger.logs_model().push((name@, Level::INFO)),
                Err(e) => results_has(old(self).ledger.results_model(), name@)
                    && e@ == crate::trap::HostErrorView::Fatal(
                        FatalErrorView::DuplicateTest { name: name@ },
                    )
                    && final(self).ledger == old(self).ledger,
            },
    {
        match self.ledger.register_test(name) {
            Ok(()) => Ok(()),
            Err(e) => Err(HostError::Fatal(e)),
        }
    }

    /// Looks a record up without touching anything.
    pub fn mock_store_get(&self, entity_type: &String, id: &String) -> (r: Option<&Entity>)
        requires
            self.wf(),
        ensures
            r.is_some() == self.store.has_entity(entity_type@, id@),
            match r {
                Some(e) => e.view_model() == self.store.entity_model(entity_type@, id@)
                    && e.wf(),
                None => true,
            },
    {
        self.store.get(entity_type, id)
    }

    /// Inserts or replaces one record wholesale.
    pub fn mock_store_set(&mut self, entity_type: String, id: String, data: Entity) -> (r:
        Result<(), HostError>)
        requires
            old(self).wf(),
            data.wf(),
        ensures
            final(self).wf(),
            r is Ok,
            final(self).store.view_model() == if old(self).store.has_entity(entity_type@, id@) {
                old(self).store.view_model().update(
                    old(self).store.entity_index(entity_type@, id@),
                    (entity_type@, id@, data.view_model()),
                )
            } else {
                old(self).store.view_model().push((entity_type@, id@, data.view_model()))
            },
            final(self).stubs == old(self).stubs,
            final(self).ledger == old(self).ledger,
            unrelated_preserved(*old(self), *final(self)),
    {
        self.store.set(entity_type, id, data);
        Ok(())
    }

    /// Removes one record; removing a record that does not exist never
    /// mutates the store and records a test failure naming both the type
    /// and the id.
    pub fn mock_store_remove(&mut self, entity_type: &String, id: &String) -> (r:
        Result<(), HostError>)
        requires
            old(self).wf(),
        ensures
            final(self).wf(),
            final(self).stubs == old(self).stubs,
            unrelated_preserved(*old(self), *final(self)),
            match r {
                Ok(()) => if old(self).store.has_entity(entity_type@, id@) {
                    final(self).store.view_model() == old(self).store.view_model().remove(
                        old(self).store.entity_index(entity_type@, id@),
                    ) && final(self).ledger == old(self).ledger
                } else {
                    final(self).store.view_model() == old(self).store.view_model()
                        && old(self).ledger.results_model().len() > 0
                        && final(self).ledger.results_model()
                            == old(self).ledger.results_model().update(
                                old(self).ledger.results_model().len() - 1,
                                (old(self).ledger.results_model().last().0, false),
                            )
                        && final(self).ledger.logs_model()
                            == old(self).ledger.logs_model().push(
                                (msg_remove_missing(entity_type@, id@), Level::ERROR),
                            )
                },
                Err(e) => !old(self).store.has_entity(entity_type@, id@)
                    && old(self).ledger.results_model().len() == 0
                    && e@ == crate::trap::HostErrorView::Fatal(FatalErrorView::NoCurrentTest)
                    && final(self).store.view_model() == old(self).store.view_model()
                    && final(self).ledger == old(self).ledger,
            },
    {
        let removed = self.store.remove(entity_type, id);
        if removed {
            Ok(())
        } else {
            if !self.ledger.has_tests() {
                return Err(HostError::Fatal(FatalError::NoCurrentTest));
            }
            let mut msg = String::new();
            msg.append("(store.remove) Entity with type '");
            msg.append(entity_type.as_str());
            msg.append("' and id '");
            msg.append(id.as_str());
            msg.append("' does not exist. Problem originated from store.remove()");
            proof {
                assert(msg@ =~= msg_remove_missing(entity_type@, id@));
            }
            self.ledger.mark_current_failed(msg);
            Ok(())
        }
    }

    /// Checks that the canonical form of one stored field equals the
    /// expected text, testing the entity type, then the id, then the
    /// field, then the value; each failing check fails the current test
    /// with its own diagnostic.
    pub fn assert_field_equals(
        &mut self,
        entity_type: &String,
        id: &String,
        field_name: &String,
        expected_val: &String,
    ) -> (r: Result<(), HostError>)
        requires
            old(self).wf(),
        ensures
            final(self).wf(),
            final(self).store == old(self).store,
            final(self).stubs == old(self).stubs,
            unrelated_preserved(*old(self), *final(self)),
            ({
                let verdict = assert_outcome(
                    old(self).store,
                    entity_type@,
                    id@,
                    field_name@,
                    expected_val@,
                );
                match r {
                    Ok(()) => if verdict == AssertOutcome::Pass {
                        final(self).ledger == old(self).ledger
                    } else {
                        old(self).ledger.results_model().len() > 0
                            && final(self).ledger.results_model()
                                == old(self).ledger.results_model().update(
                                    old(self).ledger.results_model().len() - 1,
                                    (old(self).ledger.results_model().last().0, false),
                                )
                            && final(self).ledger.logs_model()
                                == old(self).ledger.logs_model().push((
                                    assert_fail_message(
                                        verdict,
                                        old(self).store,
                                        entity_type@,
                                        id@,
                                        field_name@,
                                        expected_val@,
                                    ),
                                    Level::ERROR,
                                ))
                    },
                    Err(e) => verdict != AssertOutcome::Pass
                        && old(self).ledger.results_model().len() == 0
                        && e@ == crate::trap::HostErrorView::Fatal(FatalErrorView::NoCurrentTest)
                        && final(self).ledger == old(self).ledger,
                }
            }),
    {
        if !self.store.contains_entity_type(entity_type) {
            let mut msg = String::new();
            msg.append("(assert.fieldEquals) No entities with type '");
            msg.append(entity_type.as_str());
            msg.append("' found.");
            proof {
                assert(msg@ =~= msg_no_type(entity_type@));
            }
            return self.record_assert_failure(msg);
        }
        let entity = self.store.get(entity_type, id);
        let entity = match entity {
            None => {
                let mut msg = String::new();
                msg.append("(assert.fieldEquals) No entity with type '");
                msg.append(entity_type.as_str());
                msg.append("' and id '");
                msg.append(id.as_str());
                msg.append("' found.");
                proof {
                    assert(msg@ =~= msg_no_entity(entity_type@, id@));
                }
                return self.record_assert_failure(msg);
            }
            Some(e) => e,
        };
        let val = entity.get_field(field_name);
        let val = match val {
            None => {
                let mut msg = String::new();
                msg.append("(assert.fieldEquals) No field named '");
                msg.append(field_name.as_str());
                msg.append("' on entity with type '");
                msg.append(entity_type.as_str());
                msg.append("' and id '");
                msg.append(id.as_str());
                msg.append("' found.");
                proof {
                    assert(msg@ =~= msg_no_field(field_name@, entity_type@, id@));
                }
                return self.record_assert_failure(msg);
            }
            Some(v) => v,
        };
        let actual = crate::value::value_to_text(val);
        if !actual.eq(expected_val) {
            let mut msg = String::new();
            msg.append("(assert.fieldEquals) Expected field '");
            msg.append(field_name.as_str());
            msg.append("' to equal '");
            msg.append(expected_val.as_str());
            msg.append("', but was '");
            msg.append(actual.as_str());
            msg.append("' instead.");
            proof {
                assert(msg@ =~= msg_mismatch(field_name@, expected_val@, actual@));
            }
            return self.record_assert_failure(msg);
        }
        Ok(())
    }

    /// Fails the current test with the given diagnostic, or reports that
    /// no test is registered.
    fn record_assert_failure(&mut self, msg: String) -> (r: Result<(), HostError>)
        requires
            old(self).wf(),
        ensures
            final(self).wf(),
            final(self).store == old(self).store,
            final(self).stubs == old(self).stubs,
            unrelated_preserved(*old(self), *final(self)),
            match r {
                Ok(()) => old(self).ledger.results_model().len() > 0
                    && final(self).ledger.results_model()
                        == old(self).ledger.results_model().update(
                            old(self).ledger.results_model().len() - 1,
                            (old(self).ledger.results_model().last().0, false),
                        )
                    && final(self).ledger.logs_model()
                        == old(self).ledger.logs_model().push((msg@, Level::ERROR)),
                Err(e) => old(self).ledger.results_model().len() == 0
                    && e@ == crate::trap::HostErrorView::Fatal(FatalErrorView::NoCurrentTest)
                    && final(self).ledger == old(self).ledger,
            },
    {
        if !self.ledger.has_tests() {
            return Err(HostError::Fatal(FatalError::NoCurrentTest));
        }
        self.ledger.mark_current_failed(msg);
        Ok(())
    }

    /// Resolves a stubbed external call to its canned return token; a
    /// fingerprint that was never registered is fatal.
    pub fn ethereum_call(
        &self,
        contract_address: &String,
        fn_name: &String,
        fn_args: &Vec<CallToken>,
    ) -> (r: Result<&CallToken, HostError>)
        requires
            self.wf(),
        ensures
            ({
                let fp = fingerprint(contract_address@, fn_name@, token_views(fn_args@));
                match r {
                    Ok(v) => stub_has(self.stubs.view_model(), fp)
                        && v@ == stub_value(self.stubs.view_model(), fp),
                    Err(e) => !stub_has(self.stubs.view_model(), fp)
                        && e@ == crate::trap::HostErrorView::Fatal(
                            FatalErrorView::MissingStub { fingerprint: fp },
                        ),
                }
            }),
    {
        match self.stubs.resolve(contract_address, fn_name, fn_args) {
            Ok(v) => Ok(v),
            Err(e) => Err(HostError::Fatal(e)),
        }
    }

    /// Cans a return token for one external call; the last registration
    /// of a fingerprint wins.
    pub fn mock_function(
        &mut self,
        contract_address: &String,
        fn_name: &String,
        fn_args: &Vec<CallToken>,
        return_value: CallToken,
    ) -> (r: Result<(), HostError>)
        requires
            old(self).wf(),
        ensures
            final(self).wf(),
            r is Ok,
            final(self).stubs.view_model() == spec_register(
                old(self).stubs.view_model(),
                fingerprint(contract_address@, fn_name@, token_views(fn_args@)),
                return_value@,
            ),
            final(self).store == old(self).store,
            final(self).ledger == old(self).ledger,
            unrelated_preserved(*old(self), *final(self)),
    {
        self.stubs.register(contract_address, fn_name, fn_args, return_value);
        Ok(())
    }
}

/// The context fields no host function touches: identity, block, timeout,
/// nesting depth and the sticky classification flags.
pub open spec fn unrelated_preserved(a: InstanceContext, b: InstanceContext) -> bool {
    &&& b.subgraph_id@ == a.subgraph_id@
    &&& b.block.number == a.block.number
    &&& b.block.hash@ == a.block.hash@
    &&& b.timeout_secs == a.timeout_secs
    &&& b.handler_depth == a.handler_depth
    &&& b.deterministic_host_trap == a.deterministic_host_trap
    &&& b.possible_reorg == a.possible_reorg
}

/// One host call a handler makes, as a plain event.
#[derive(Debug)]
pub enum HostCall {
    Log { level: u32, message: String },
    ClearStore,
    RegisterTest { name: String },
    AssertFieldEquals { entity_type: String, id: String, field_name: String, expected_val: String },
    StoreGet { entity_type: String, id: String },
    StoreSet { entity_type: String, id: String, data: Entity },
    StoreRemove { entity_type: String, id: String },
    EthereumCall { contract_address: String, fn_name: String, fn_args: Vec<CallToken> },
    MockFunction {
        contract_address: String,
        fn_name: String,
        fn_args: Vec<CallToken>,
        return_value: CallToken,
    },
    /// A chain-specific host function supplied by the adapter layer; the
    /// event carries how the adapter's own error taxonomy judged the
    /// call, so the engine can translate it into the sticky flags.
    ChainCall { name: String, outcome: Result<(), HostError> },
}

impl HostCall {
    /// The entities a call carries are well formed.
    pub open spec fn wf(self) -> bool {
        match self {
            HostCall::StoreSet { entity_type, id, data } => data.wf(),
            _ => true,
        }
    }
}

impl InstanceContext {
    /// Applies one host call to the simulated world, behaving exactly as
    /// the named host function it routes to; any looked-up value is
    /// discarded, since the module consumed it.
    pub fn apply_host_call(&mut self, call: &HostCall) -> (r: Result<(), HostError>)
        requires
            old(self).wf(),
            call.wf(),
        ensures
            final(self).wf(),
            unrelated_preserved(*old(self), *final(self)),
            ({
                match call {
                    HostCall::Log { level, message } => {
                        &&& final(self).store == old(self).store
                        &&& final(self).stubs == old(self).stubs
                        &&& match r {
                            Ok(()) => if level == 1 {
                                old(self).ledger.results_model().len() > 0
                                    && final(self).ledger.results_model()
                                        == old(self).ledger.results_model().update(
                                            old(self).ledger.results_model().len() - 1,
                                            (old(self).ledger.results_model().last().0, false),
                                        )
                                    && final(self).ledger.logs_model()
                                        == old(self).ledger.logs_model().push(
                                            (message@, Level::ERROR),
                                        )
                            } else {
                                level != 0
                                    && final(self).ledger.results_model()
                                        == old(self).ledger.results_model()
                                    && final(self).ledger.logs_model()
                                        == old(self).ledger.logs_model().push(
                                            (message@, spec_level_from_u32(*level)),
                                        )
                            },
                            Err(e) => final(self).ledger == old(self).ledger
                                && (
                                    (level == 0
                                        && e@ == crate::trap::HostErrorView::Fatal(
                                            FatalErrorView::CriticalLog { message: message@ },
                                        ))
                                    || (level == 1
                                        && old(self).ledger.results_model().len() == 0
                                        && e@ == crate::trap::HostErrorView::Fatal(
                                            FatalErrorView::NoCurrentTest,
                                        ))
                                ),
                        }
                    }
                    HostCall::ClearStore => {
                        &&& r is Ok
                        &&& final(self).store.view_model()
                            == Seq::<(Seq<char>, Seq<char>, crate::store::EntityModel)>::empty()
                        &&& final(self).stubs == old(self).stubs
                        &&& final(self).ledger == old(self).ledger
                    }
                    HostCall::RegisterTest { name } => {
                        &&& final(self).store == old(self).store
                        &&& final(self).stubs == old(self).stubs
                        &&& match r {
                            Ok(()) => !results_has(old(self).ledger.results_model(), name@)
                                && final(self).ledger.results_model()
                                    == old(self).ledger.results_model().push((name@, true))
                                && final(self).ledger.logs_model()
                                    == old(self).ledger.logs_model().push((name@, Level::INFO)),
                            Err(e) => results_has(old(self).ledger.results_model(), name@)
                                && e@ == crate::trap::HostErrorView::Fatal(
                                    FatalErrorView::DuplicateTest { name: name@ },
                                )
                                && final(self).ledger == old(self).ledger,
                        }
                    }
                    HostCall::AssertFieldEquals { entity_type, id, field_name, expected_val } => {
                        &&& final(self).store == old(self).store
                        &&& final(self).stubs == old(self).stubs
                        &&& ({
                            let verdict = assert_outcome(
                                old(self).store,
                                entity_type@,
                                id@,
                                field_name@,
                                expected_val@,
                            );
                            match r {
                                Ok(()) => if verdict == AssertOutcome::Pass {
                                    final(self).ledger == old(self).ledger
                                } else {
                                    old(self).ledger.results_model().len() > 0
                                        && final(self).ledger.results_model()
                                            == old(self).ledger.results_model().update(
                                                old(self).ledger.results_model().len() - 1,
                                                (
                                                    old(self).ledger.results_model().last().0,
                                                    false,
                                                ),
                                            )
                                        && final(self).ledger.logs_model()
                                            == old(self).ledger.logs_model().push((
                                                assert_fail_message(
                                                    verdict,
                                                    old(self).store,
                                                    entity_type@,
                                                    id@,
                                                    field_name@,
                                                    expected_val@,
                                                ),
                                                Level::ERROR,
                                            ))
                                },
                                Err(e) => verdict != AssertOutcome::Pass
                                    && old(self).ledger.results_model().len() == 0
                                    && e@ == crate::trap::HostErrorView::Fatal(
                                        FatalErrorView::NoCurrentTest,
                                    )
                                    && final(self).ledger == old(self).ledger,
                            }
                        })
                    }
                    HostCall::StoreGet { entity_type, id } => {
                        &&& r is Ok
                        &&& *final(self) == *old(self)
                    }
                    HostCall::StoreSet { entity_type, id, data } => {
                        &&& r is Ok
                        &&& final(self).store.view_model()
                            == if old(self).store.has_entity(entity_type@, id@) {
                                old(self).store.view_model().update(
                                    old(self).store.entity_index(entity_type@, id@),
                                    (entity_type@, id@, data.view_model()),
                                )
                            } else {
                                old(self).store.view_model().push(
                                    (entity_type@, id@, data.view_model()),
                                )
                            }
                        &&& final(self).stubs == old(self).stubs
                        &&& final(self).ledger == old(self).ledger
                    }
                    HostCall::StoreRemove { entity_type, id } => {
                        &&& final(self).stubs == old(self).stubs
                        &&& match r {
                            Ok(()) => if old(self).store.has_entity(entity_type@, id@) {
                                final(self).store.view_model()
                                    == old(self).store.view_model().remove(
                                        old(self).store.entity_index(entity_type@, id@),
                                    ) && final(self).ledger == old(self).ledger
                            } else {
                                final(self).store.view_model() == old(self).store.view_model()
                                    && old(self).ledger.results_model().len() > 0
                                    && final(self).ledger.results_model()
                                        == old(self).ledger.results_model().update(
                                            old(self).ledger.results_model().len() - 1,
                                            (
                                                old(self).ledger.results_model().last().0,
                                                false,
                                            ),
                                        )
                                    && final(self).ledger.logs_model()
                                        == old(self).ledger.logs_model().push((
                                            msg_remove_missing(entity_type@, id@),
                                            Level::ERROR,
                                        ))
                            },
                            Err(e) => !old(self).store.has_entity(entity_type@, id@)
                                && old(self).ledger.results_model().len() == 0
                                && e@ == crate::trap::HostErrorView::Fatal(
                                    FatalErrorView::NoCurrentTest,
                                )
                                && final(self).store.view_model()
                                    == old(self).store.view_model()
                                && final(self).ledger == old(self).ledger,
                        }
                    }
                    HostCall::EthereumCall { contract_address, fn_name, fn_args } => {
                        &&& *final(self) == *old(self)
                        &&& ({
                            let fp = fingerprint(
                                contract_address@,
                                fn_name@,
                                token_views(fn_args@),
                            );
                            match r {
                                Ok(()) => stub_has(old(self).stubs.view_model(), fp),
                                Err(e) => !stub_has(old(self).stubs.view_model(), fp)
                                    && e@ == crate::trap::HostErrorView::Fatal(
                                        FatalErrorView::MissingStub { fingerprint: fp },
                                    ),
                            }
                        })
                    }
                    HostCall::MockFunction {
                        contract_address,
                        fn_name,
                        fn_args,
                        return_value,
                    } => {
                        &&& r is Ok
                        &&& final(self).stubs.view_model() == spec_register(
                            old(self).stubs.view_model(),
                            fingerprint(contract_address@, fn_name@, token_views(fn_args@)),
                            return_value@,
                        )
                        &&& final(self).store == old(self).store
                        &&& final(self).ledger == old(self).ledger
                    }
                    HostCall::ChainCall { name, outcome } => {
                        &&& *final(self) == *old(self)
                        &&& (r is Ok) == (outcome is Ok)
                        &&& match (r, outcome) {
                            (Err(e), Err(e0)) => e@ == e0@,
                            _ => true,
                        }
                    }
                }
            }),
    {
        match call {
            HostCall::Log { level, message } => {
                let m = self.log(*level, message.clone());
                match m {
                    Ok(()) => Ok(()),
                    Err(e) => Err(e),
                }
            }
            HostCall::ClearStore => {
                let m = self.clear_store();
                match m {
                    Ok(()) => Ok(()),
                    Err(e) => Err(e),
                }
            }
            HostCall::RegisterTest { name } => {
                let m = self.register_test(name.clone());
                match m {
                    Ok(()) => Ok(()),
                    Err(e) => Err(e),
                }
            }
            HostCall::AssertFieldEquals { entity_type, id, field_name, expected_val } => {
                let m = self.assert_field_equals(entity_type, id, field_name, expected_val);
                match m {
                    Ok(()) => Ok(()),
                    Err(e) => Err(e),
                }
            }
            HostCall::StoreGet { entity_type, id } => {
                let _found = self.mock_store_get(entity_type, id);
                Ok(())
            }
            HostCall::StoreSet { entity_type, id, data } => {
                let m = self.mock_store_set(
                    entity_type.clone(),
                    id.clone(),
                    data.duplicate(),
                );
                match m {
                    Ok(()) => Ok(()),
                    Err(e) => Err(e),
                }
            }
            HostCall::StoreRemove { entity_type, id } => {
                let m = self.mock_store_remove(entity_type, id);
                match m {
                    Ok(()) => Ok(()),
                    Err(e) => Err(e),
                }
            }
            HostCall::EthereumCall { contract_address, fn_name, fn_args } => {
                let m = self.ethereum_call(contract_address, fn_name, fn_args);
                match m {
                    Ok(_v) => Ok(()),
                    Err(e) => Err(e),
                }
            }
            HostCall::MockFunction { contract_address, fn_name, fn_args, return_value } => {
                let m = self.mock_function(
                    contract_address,
                    fn_name,
                    fn_args,
                    crate::stubs::dup_call_token(return_value),
                );
                match m {
                    Ok(()) => Ok(()),
                    Err(e) => Err(e),
                }
            }
            HostCall::ChainCall { name: _, outcome } => {
                match outcome {
                    Ok(()) => Ok(()),
                    Err(e) => Err(crate::trap::dup_host_error(e)),
                }
            }
        }
    }
}

} // verus!
