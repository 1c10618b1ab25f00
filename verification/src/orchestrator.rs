//! The provisioning orchestrator: the per-record decision core of the run.
//!
//! For each input record it consults the allocation table, then walks a
//! fixed command sequence against the registry console: an existence query,
//! and — only where the subscriber is missing — create, default-number
//! update and key installation, each response validated strictly. The
//! orchestrator itself performs no input or output: every step hands the
//! application the exact line to append or send, takes the raw response text
//! back, and decides. Any unexpected acknowledgement is fatal for the whole
//! run; nothing is retried.

use crate::allocation::ALLOCATION_FLOOR;
use crate::allocation::Allocation;
use crate::allocation::AllocationError;
use crate::allocation::AllocationTable;
use crate::allocation::allocates;
use crate::allocation::record_line;
use crate::session::absence_marker;
use crate::session::ack_matches;
use crate::session::build_create_command;
use crate::session::build_key_command;
use crate::session::build_msisdn_command;
use crate::session::build_show_command;
use crate::session::create_command;
use crate::session::created_ack;
use crate::session::created_ack_text;
use crate::session::has_echo;
use crate::session::has_second_line;
use crate::session::key_command;
use crate::session::msisdn_command;
use crate::session::response_body;
use crate::session::second_line;
use crate::session::show_command;
use crate::session::subscriber_missing;
use crate::session::updated_ack;
use crate::session::updated_ack_text;
use crate::session::validate_response;
use vstd::prelude::*;

verus! {

/// What a finished run reports: how many numbers were newly assigned and
/// how many subscribers were newly provisioned.
pub struct Counters {
    pub new_defaults: u64,
    pub new_provisioned: u64,
}

/// One parsed input record: a subscriber identity with its key material.
pub struct InputRecord {
    pub identity: String,
    pub key: String,
    pub operator_code: String,
}

/// The record currently being provisioned, carried between steps.
pub struct Pending {
    pub identity: String,
    pub key: String,
    pub operator_code: String,
    pub number: u64,
}

/// Where the orchestrator stands inside one record's command sequence.
pub enum Phase {
    Idle,
    AwaitExistence(Pending),
    AwaitCreateAck(Pending),
    AwaitMsisdnAck(Pending),
    AwaitKeyAck,
}

/// Every fault that ends a run. Each is terminal: nothing is retried and
/// nothing is rolled back.
#[derive(Debug)]
pub enum RunError {
    MalformedInputRecord,
    MalformedTableRecord,
    CeilingExceeded,
    ProtocolViolation,
}

impl RunError {
    /// The process exit status belonging to the fault, where the
    /// interface assigns one; the ceiling breach is an invariant
    /// violation that the caller surfaces as a panic instead.
    pub fn exit_code(&self) -> (c: Option<u8>)
        ensures
            c == match self {
                RunError::MalformedInputRecord => Some(2u8),
                RunError::MalformedTableRecord => Some(3u8),
                RunError::ProtocolViolation => Some(4u8),
                RunError::CeilingExceeded => None::<u8>,
            },
    {
        match self {
            RunError::MalformedInputRecord => Some(2),
            RunError::MalformedTableRecord => Some(3),
            RunError::ProtocolViolation => Some(4),
            RunError::CeilingExceeded => None,
        }
    }
}

/// What the application must do to start a record: durably append the
/// allocation line where one was produced, then send the existence query
/// and hand the raw response back.
#[derive(Debug)]
pub struct RecordStart {
    pub append: Option<String>,
    pub query: String,
}

/// The decision after the existence query: leave the record alone, or
/// send the create command and go on.
pub enum ExistenceOutcome {
    AlreadyPresent,
    Provision(String),
}

/// The orchestrator: the allocation table, the run's counters and the
/// position inside the current record's command sequence.
pub struct Orchestrator {
    pub table: AllocationTable,
    pub counters: Counters,
    pub phase: Phase,
}

impl Orchestrator {
    /// Well-formedness: the table is sound, and the count of fresh
    /// allocations never outruns the ground the watermark has covered
    /// above the floor.
    pub open spec fn wf(self) -> bool {
        &&& self.table.wf()
        &&& self.counters.new_defaults + ALLOCATION_FLOOR <= self.table.high_watermark
    }

    /// A fresh orchestrator over a loaded table, with nothing counted and
    /// no record underway.
    pub fn new(table: AllocationTable) -> (o: Orchestrator)
        requires
            table.wf(),
        ensures
            o.wf(),
            o.table == table,
            o.counters.new_defaults == 0,
            o.counters.new_provisioned == 0,
            o.phase is Idle,
    {
        Orchestrator {
            table,
            counters: Counters { new_defaults: 0, new_provisioned: 0 },
            phase: Phase::Idle,
        }
    }

    /// Starts one record: looks its identity up in the table, assigning
    /// the next number where it has none, and decides what the
    /// application must do — append the new allocation line, if any, then
    /// send the existence query. An identity already in the table keeps
    /// its number, with nothing appended and nothing counted. A full
    /// number space is fatal and leaves everything untouched.
    pub fn begin_record(&mut self, record: InputRecord) -> (r: Result<RecordStart, RunError>)
        requires
            old(self).wf(),
            old(self).phase is Idle,
        ensures
            final(self).wf(),
            match r {
                Ok(start) => {
                    &&& start.query@ == show_command(record.identity@)
                    &&& final(self).phase matches Phase::AwaitExistence(p)
                        && p.identity@ == record.identity@ && p.key@ == record.key@
                        && p.operator_code@ == record.operator_code@
                    &&& final(self).counters.new_provisioned == old(
                        self,
                    ).counters.new_provisioned
                    &&& if old(self).table.as_map().contains_key(record.identity@) {
                        &&& final(self).phase matches Phase::AwaitExistence(p)
                            && p.number == old(self).table.as_map()[record.identity@]
                        &&& start.append is None
                        &&& final(self).table == old(self).table
                        &&& final(self).counters == old(self).counters
                    } else {
                        &&& final(self).phase matches Phase::AwaitExistence(p) && allocates(
                            old(self).table,
                            final(self).table,
                            p.number,
                        ) && (start.append matches Some(line) && line@ == record_line(
                            record.identity@,
                            p.number,
                        ))
                        &&& final(self).counters.new_defaults == old(
                            self,
                        ).counters.new_defaults + 1
                    }
                },
                Err(e) => {
                    &&& e is CeilingExceeded
                    &&& !old(self).table.as_map().contains_key(record.identity@)
                    &&& old(self).table.high_watermark + 1
                        >= crate::allocation::ALLOCATION_CEILING
                    &&& *final(self) == *old(self)
                },
            },
    {
        let allocation = match self.table.get_or_allocate(record.identity.as_str()) {
            Ok(a) => a,
            Err(AllocationError::CeilingExceeded) => {
                return Err(RunError::CeilingExceeded);
            },
        };
        let Allocation { number, is_new, append } = allocation;
        if is_new {
            self.counters.new_defaults = self.counters.new_defaults + 1;
        }
        let query = build_show_command(record.identity.as_str());
        self.phase = Phase::AwaitExistence(
            Pending {
                identity: record.identity,
                key: record.key,
                operator_code: record.operator_code,
                number,
            },
        );
        Ok(RecordStart { append, query })
    }

    /// Takes the raw response of the existence query. A second line that
    /// does not carry the absence marker means the subscriber is already
    /// provisioned: the record is finished with nothing sent and nothing
    /// changed, which is what makes a re-run idempotent. Otherwise the
    /// create command goes out next.
    pub fn existence_response(&mut self, raw: &str) -> (r: ExistenceOutcome)
        requires
            old(self).wf(),
            old(self).phase matches Phase::AwaitExistence(_),
            has_second_line(raw@),
        ensures
            final(self).wf(),
            final(self).table == old(self).table,
            final(self).counters == old(self).counters,
            if absence_marker().is_prefix_of(second_line(raw@)) {
                &&& old(self).phase matches Phase::AwaitExistence(p) && (r matches
                    ExistenceOutcome::Provision(cmd) && cmd@ == create_command(p.identity@))
                    && final(self).phase == Phase::AwaitCreateAck(p)
            } else {
                &&& r is AlreadyPresent
                &&& final(self).phase is Idle
            },
    {
        let missing = match subscriber_missing(raw) {
            Some(m) => m,
            None => unreached(),
        };
        if !missing {
            self.phase = Phase::Idle;
            return ExistenceOutcome::AlreadyPresent;
        }
        let mut taken = Phase::Idle;
        core::mem::swap(&mut self.phase, &mut taken);
        match taken {
            Phase::AwaitExistence(p) => {
                let cmd = build_create_command(p.identity.as_str());
                self.phase = Phase::AwaitCreateAck(p);
                ExistenceOutcome::Provision(cmd)
            },
            _ => unreached(),
        }
    }

    /// Takes the raw response of the create command. Only the expected
    /// acknowledgement lets the run go on, to the default-number update;
    /// anything else is a protocol violation that ends the run before any
    /// further command.
    pub fn create_response(&mut self, raw: &str) -> (r: Result<String, RunError>)
        requires
            old(self).wf(),
            old(self).phase matches Phase::AwaitCreateAck(_),
            has_echo(raw@),
        ensures
            final(self).wf(),
            final(self).table == old(self).table,
            final(self).counters == old(self).counters,
            if ack_matches(response_body(raw@), created_ack()) {
                &&& old(self).phase matches Phase::AwaitCreateAck(p) && (r matches Ok(cmd)
                    && cmd@ == msisdn_command(p.identity@, p.number)) && final(self).phase
                    == Phase::AwaitMsisdnAck(p)
            } else {
                &&& r matches Err(e) && e is ProtocolViolation
                &&& *final(self) == *old(self)
            },
    {
        if validate_response(raw, created_ack_text()).is_none() {
            return Err(RunError::ProtocolViolation);
        }
        let mut taken = Phase::Idle;
        core::mem::swap(&mut self.phase, &mut taken);
        match taken {
            Phase::AwaitCreateAck(p) => {
                let cmd = build_msisdn_command(p.identity.as_str(), p.number);
                self.phase = Phase::AwaitMsisdnAck(p);
                Ok(cmd)
            },
            _ => unreached(),
        }
    }

    /// Takes the raw response of the default-number update. The expected
    /// acknowledgement leads to the final command, installing the key
    /// material; anything else ends the run.
    pub fn msisdn_response(&mut self, raw: &str) -> (r: Result<String, RunError>)
        requires
            old(self).wf(),
            old(self).phase matches Phase::AwaitMsisdnAck(_),
            has_echo(raw@),
        ensures
            final(self).wf(),
            final(self).table == old(self).table,
            final(self).counters == old(self).counters,
            if ack_matches(response_body(raw@), updated_ack()) {
                &&& old(self).phase matches Phase::AwaitMsisdnAck(p) && (r matches Ok(cmd)
                    && cmd@ == key_command(p.identity@, p.key@, p.operator_code@))
                    && final(self).phase is AwaitKeyAck
            } else {
                &&& r matches Err(e) && e is ProtocolViolation
                &&& *final(self) == *old(self)
            },
    {
        if validate_response(raw, updated_ack_text()).is_none() {
            return Err(RunError::ProtocolViolation);
        }
        let mut taken = Phase::Idle;
        core::mem::swap(&mut self.phase, &mut taken);
        match taken {
            Phase::AwaitMsisdnAck(p) => {
                let cmd = build_key_command(
                    p.identity.as_str(),
                    p.key.as_str(),
                    p.operator_code.as_str(),
                );
                self.phase = Phase::AwaitKeyAck;
                Ok(cmd)
            },
            _ => unreached(),
        }
    }

    /// Takes the raw response of the key installation, which must carry
    /// no acknowledgement at all: an empty body finishes the record and
    /// counts one newly provisioned subscriber; anything else ends the
    /// run.
    pub fn key_response(&mut self, raw: &str) -> (r: Result<(), RunError>)
        requires
            old(self).wf(),
            old(self).phase is AwaitKeyAck,
            has_echo(raw@),
            old(self).counters.new_provisioned < u64::MAX,
        ensures
            final(self).wf(),
            final(self).table == old(self).table,
            final(self).counters.new_defaults == old(self).counters.new_defaults,
            if ack_matches(response_body(raw@), Seq::<char>::empty()) {
                &&& r is Ok
                &&& final(self).phase is Idle
                &&& final(self).counters.new_provisioned == old(
                    self,
                ).counters.new_provisioned + 1
            } else {
                &&& r matches Err(e) && e is ProtocolViolation
                &&& *final(self) == *old(self)
            },
    {
        if validate_response(raw, "").is_none() {
            proof {
                reveal_strlit("");
                assert(""@ =~= Seq::<char>::empty());
            }
            return Err(RunError::ProtocolViolation);
        }
        proof {
            reveal_strlit("");
            assert(""@ =~= Seq::<char>::empty());
        }
        self.counters.new_provisioned = self.counters.new_provisioned + 1;
        self.phase = Phase::Idle;
        Ok(())
    }
}

/// A re-run over already-imported input is a no-op, record by record.
///
/// Take one record of such a re-run: its identity already stands in the
/// table — a fully successful earlier run appended it — and the registry
/// reports the subscriber as present, so the existence check must
/// short-circuit. Let `mid` be the orchestrator after `begin_record` and
/// `post` the one after `existence_response`, with `start` and `outcome`
/// what the two calls returned; the premises below are exactly what the
/// two contracts guarantee on this path. Then the record changed nothing:
/// no storage append, no create or update command, no new count, and the
/// orchestrator stands as it began, ready for the next record.
pub proof fn lemma_rerun_record_is_noop(
    pre: Orchestrator,
    mid: Orchestrator,
    post: Orchestrator,
    record: InputRecord,
    start: RecordStart,
    raw: Seq<char>,
    outcome: ExistenceOutcome,
)
    requires
        pre.wf(),
        pre.phase is Idle,
        pre.table.as_map().contains_key(record.identity@),
        has_second_line(raw),
        !absence_marker().is_prefix_of(second_line(raw)),
        // from the contract of `begin_record`, identity already in the table:
        start.append is None,
        mid.table == pre.table,
        mid.counters == pre.counters,
        // from the contract of `existence_response`, absence marker missing:
        post.table == mid.table,
        post.counters == mid.counters,
        post.phase is Idle,
        outcome is AlreadyPresent,
    ensures
        start.append is None,
        outcome is AlreadyPresent,
        post.table == pre.table,
        post.counters == pre.counters,
        post.phase is Idle,
{
}

} // verus!
