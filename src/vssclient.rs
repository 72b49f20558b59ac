//! The backup session: the ordered handshake with the snapshot service, the
//! query of existing snapshots, and the choice of what to delete.
//!
//! The service itself is reached by the caller. For each operation the caller
//! asks the session whether it may be issued now (`check_ordering`), makes the
//! service call, and hands the status codes it got back to the session, which
//! decides the outcome and its next state.
use vstd::prelude::*;
use crate::error::{
    call_error, call_outcome, check_status, failed, Operation, ServiceError, S_FALSE,
};
use crate::guid::Guid;
use crate::vssprop::{decodes, NativeSnapshotProp, VSSProp};

verus! {

/// The default snapshot context: a backup with writers.
pub const VSS_CTX_BACKUP: i32 = 0;

/// The backup type that a session fixes: a full backup.
pub const VSS_BT_FULL: i32 = 1;

/// Where a session stands in the handshake.
#[derive(Clone, Copy, Debug, PartialEq, Eq, Structural)]
pub enum Stage {
    Uninitialized,
    Initialized,
    MetadataGathered,
    SetStarted,
    VolumesAdded,
    Prepared,
    Committed,
    /// A handshake step failed; the session cannot go on.
    Aborted,
}

/// One of the setup calls that `initialize` stands for, in the order made.
#[derive(Clone, Copy, Debug, PartialEq, Eq, Structural)]
pub enum SetupCall {
    InitializeForBackup,
    InitializeForRestore,
    SetContext(i32),
    SetBackupState {
        select_components: bool,
        backup_bootable_system_state: bool,
        backup_type: i32,
        partial_file_support: bool,
    },
}

/// The abstract state of a session.
pub struct SessionView {
    pub stage: Stage,
    pub context: i32,
    pub during_restore: bool,
    pub snapshot_set_id: Option<Guid>,
    pub snapshot_ids: Seq<Guid>,
}

/// Whether `op` may be issued at `stage`.
pub open spec fn op_allowed(stage: Stage, op: Operation) -> bool {
    match op {
        Operation::Initialize => stage == Stage::Uninitialized,
        Operation::GatherWriterMetadata => stage == Stage::Initialized,
        Operation::StartSnapshotSet => stage == Stage::MetadataGathered,
        Operation::AddToSnapshotSet => stage == Stage::SetStarted || stage == Stage::VolumesAdded,
        Operation::SetBackupState => stage == Stage::Initialized || stage == Stage::MetadataGathered
            || stage == Stage::SetStarted || stage == Stage::VolumesAdded,
        Operation::PrepareForBackup => stage == Stage::VolumesAdded,
        Operation::DoSnapshotSet => stage == Stage::Prepared,
        _ => stage != Stage::Uninitialized,
    }
}

/// The error for an operation issued out of order.
pub open spec fn ordering_error(op: Operation) -> ServiceError {
    if op == Operation::Initialize {
        ServiceError::AlreadyInitialized
    } else {
        ServiceError::InvalidOrdering { op }
    }
}

pub open spec fn ordering_result(stage: Stage, op: Operation) -> Result<(), ServiceError> {
    if op_allowed(stage, op) {
        Ok(())
    } else {
        Err(ordering_error(op))
    }
}

/// Whether `op` is one of the steps that build a snapshot set.
pub open spec fn is_handshake_step(op: Operation) -> bool {
    match op {
        Operation::Initialize | Operation::GatherWriterMetadata | Operation::StartSnapshotSet
        | Operation::AddToSnapshotSet | Operation::SetBackupState | Operation::PrepareForBackup
        | Operation::DoSnapshotSet => true,
        _ => false,
    }
}

/// The stage that a successful handshake step leads to.
pub open spec fn stage_after(stage: Stage, op: Operation) -> Stage {
    match op {
        Operation::Initialize => Stage::Initialized,
        Operation::GatherWriterMetadata => Stage::MetadataGathered,
        Operation::StartSnapshotSet => Stage::SetStarted,
        Operation::AddToSnapshotSet => Stage::VolumesAdded,
        Operation::PrepareForBackup => Stage::Prepared,
        Operation::DoSnapshotSet => Stage::Committed,
        _ => stage,
    }
}

/// The outcome of a step whose call returned `status` and, for a long-running
/// operation, whose completion reported `async_status`.
pub open spec fn step_outcome(status: i32, async_status: Option<i32>, op: Operation) -> Result<
    (),
    ServiceError,
> {
    if failed(status) {
        Err(call_error(status, op, Guid(0)))
    } else {
        match async_status {
            Some(a) => if failed(a) {
                Err(ServiceError::AsyncOperationFailed { code: a, op })
            } else {
                Ok(())
            },
            None => Ok(()),
        }
    }
}

/// The outcome of a handshake step issued at `stage`.
pub open spec fn step_result(
    stage: Stage,
    op: Operation,
    status: i32,
    async_status: Option<i32>,
) -> Result<(), ServiceError> {
    if !op_allowed(stage, op) {
        Err(ordering_error(op))
    } else {
        step_outcome(status, async_status, op)
    }
}

/// The stage after a handshake step issued at `stage`: unchanged when refused
/// for its order, advanced on success, aborted on a failure of the service.
pub open spec fn stage_after_step(
    stage: Stage,
    op: Operation,
    status: i32,
    async_status: Option<i32>,
) -> Stage {
    if !op_allowed(stage, op) {
        stage
    } else if step_outcome(status, async_status, op) is Ok {
        stage_after(stage, op)
    } else {
        Stage::Aborted
    }
}

/// The setup calls of `initialize`, in order: one of the two mutually
/// exclusive initializations, the context where a backup asks for another one
/// than the default, then the backup state.
pub open spec fn setup_calls(context: i32, restore: bool) -> Seq<SetupCall> {
    let init = if restore {
        seq![SetupCall::InitializeForRestore]
    } else if context != VSS_CTX_BACKUP {
        seq![SetupCall::InitializeForBackup, SetupCall::SetContext(context)]
    } else {
        seq![SetupCall::InitializeForBackup]
    };
    init + seq![
        SetupCall::SetBackupState {
            select_components: true,
            backup_bootable_system_state: true,
            backup_type: VSS_BT_FULL,
            partial_file_support: false,
        },
    ]
}


/// Whether a native record passes a query filter: the null identifier lets
/// every record through, any other one only the snapshot it identifies.
pub open spec fn matches_filter(p: NativeSnapshotProp, filter: Guid) -> bool {
    filter.0 == 0 || p.snapshot_id == filter
}

/// The records that a query keeps, in enumeration order.
pub open spec fn selected(records: Seq<NativeSnapshotProp>, filter: Guid) -> Seq<NativeSnapshotProp> {
    records.filter(|p: NativeSnapshotProp| matches_filter(p, filter))
}

/// Whether a native record belongs to a snapshot set.
pub open spec fn in_set(p: NativeSnapshotProp, set_id: Guid) -> bool {
    p.snapshot_set_id == set_id
}

/// The records of one snapshot set, in enumeration order.
pub open spec fn members(records: Seq<NativeSnapshotProp>, set_id: Guid) -> Seq<NativeSnapshotProp> {
    records.filter(|p: NativeSnapshotProp| in_set(p, set_id))
}

/// `out` holds, in order, the decodings of `kept`.
pub open spec fn decodes_all(kept: Seq<NativeSnapshotProp>, out: Seq<VSSProp>) -> bool {
    out.len() == kept.len() && forall|j: int| 0 <= j < kept.len() ==> decodes(kept[j], #[trigger] out[j])
}

/// What a session does next while deleting every snapshot.
#[derive(Debug)]
pub enum DeleteStep {
    /// Delete this snapshot, then report the outcome.
    Delete(Guid),
    /// Stop with this outcome.
    Finished(Result<(), ServiceError>),
}

/// The next step of deleting all of `all`, once the first `deleted` of them
/// are deleted and the last deletion ended with `last`: stop at the first
/// failure, else delete the next one in order, else finish.
pub open spec fn delete_all_step(all: Seq<VSSProp>, deleted: int, last: Result<(), ServiceError>) -> DeleteStep {
    match last {
        Err(e) => DeleteStep::Finished(Err(e)),
        Ok(()) => if deleted < all.len() {
            DeleteStep::Delete(all[deleted].snapshot_id)
        } else {
            DeleteStep::Finished(Ok(()))
        },
    }
}

/// Whether snapshot `i` of `all` lies on `volume` and no snapshot on it is
/// older, nor one as old that comes before it.
pub open spec fn is_oldest_on(all: Seq<VSSProp>, volume: Seq<char>, i: int) -> bool {
    &&& 0 <= i < all.len()
    &&& all[i].origin_vol_name@ == volume
    &&& forall|j: int|
        0 <= j < all.len() && all[j].origin_vol_name@ == volume ==> all[i].create_time.total_nanos()
            <= #[trigger] all[j].create_time.total_nanos()
    &&& forall|j: int|
        0 <= j < i && all[j].origin_vol_name@ == volume ==> all[i].create_time.total_nanos()
            < #[trigger] all[j].create_time.total_nanos()
}

pub open spec fn has_snapshot_on(all: Seq<VSSProp>, volume: Seq<char>) -> bool {
    exists|j: int| 0 <= j < all.len() && #[trigger] all[j].origin_vol_name@ == volume
}


/// A session is initialized at most once: after a first `initialize`,
/// whatever its outcome, a second one is refused with `AlreadyInitialized`
/// and changes nothing.
pub proof fn lemma_single_initialize(first_status: i32, second_status: i32)
    ensures
        ({
            let s1 = stage_after_step(Stage::Uninitialized, Operation::Initialize, first_status, None);
            &&& step_result(s1, Operation::Initialize, second_status, None) == Err::<
                (),
                ServiceError,
            >(ServiceError::AlreadyInitialized)
            &&& stage_after_step(s1, Operation::Initialize, second_status, None) == s1
        }),
{
}

/// Adding a volume is refused with `InvalidOrdering`, and changes nothing,
/// unless a snapshot set has been started; and the only way into a started
/// set is a successful `start_snapshot_set`.
pub proof fn lemma_add_needs_started_set(
    stage: Stage,
    op: Operation,
    status: i32,
    async_status: Option<i32>,
)
    ensures
        stage != Stage::SetStarted && stage != Stage::VolumesAdded ==> step_result(
            stage,
            Operation::AddToSnapshotSet,
            status,
            async_status,
        ) == Err::<(), ServiceError>(ServiceError::InvalidOrdering { op: Operation::AddToSnapshotSet })
            && stage_after_step(stage, Operation::AddToSnapshotSet, status, async_status) == stage,
        stage != Stage::SetStarted && stage_after_step(stage, op, status, async_status)
            == Stage::SetStarted ==> op == Operation::StartSnapshotSet && step_result(
            stage,
            op,
            status,
            async_status,
        ) is Ok,
{
}

/// Committing is refused with `InvalidOrdering`, and changes nothing, unless
/// the set has been prepared; and the only way into a prepared set is a
/// `prepare_for_backup` whose call and completion both succeeded.
pub proof fn lemma_commit_needs_prepare(
    stage: Stage,
    op: Operation,
    status: i32,
    async_status: Option<i32>,
)
    ensures
        stage != Stage::Prepared ==> step_result(stage, Operation::DoSnapshotSet, status, async_status)
            == Err::<(), ServiceError>(ServiceError::InvalidOrdering { op: Operation::DoSnapshotSet })
            && stage_after_step(stage, Operation::DoSnapshotSet, status, async_status) == stage,
        stage != Stage::Prepared && stage_after_step(stage, op, status, async_status)
            == Stage::Prepared ==> op == Operation::PrepareForBackup && step_result(
            stage,
            op,
            status,
            async_status,
        ) is Ok,
{
}

/// The oldest snapshot on a volume is well defined: when one lies on it,
/// exactly one index satisfies `is_oldest_on`, and no snapshot on the volume
/// was created earlier.
pub proof fn lemma_oldest_unique(all: Seq<VSSProp>, volume: Seq<char>, i: int, j: int)
    requires
        is_oldest_on(all, volume, i),
        is_oldest_on(all, volume, j),
    ensures
        i == j,
{
    if i < j {
        assert(all[j].create_time.total_nanos() < all[i].create_time.total_nanos());
    } else if j < i {
        assert(all[i].create_time.total_nanos() < all[j].create_time.total_nanos());
    }
}

/// A session with the snapshot service.
pub struct VssClient {
    stage: Stage,
    context: i32,
    during_restore: bool,
    latest_snapshot_set_id: Option<Guid>,
    snapshot_ids: Vec<Guid>,
}

impl View for VssClient {
    type V = SessionView;

    closed spec fn view(&self) -> SessionView {
        SessionView {
            stage: self.stage,
            context: self.context,
            during_restore: self.during_restore,
            snapshot_set_id: self.latest_snapshot_set_id,
            snapshot_ids: self.snapshot_ids@,
        }
    }
}

impl VssClient {
    /// A session that has not been initialized.
    pub fn new() -> (r: VssClient)
        ensures
            r@.stage == Stage::Uninitialized,
            r@.context == VSS_CTX_BACKUP,
            !r@.during_restore,
            r@.snapshot_set_id is None,
            r@.snapshot_ids.len() == 0,
    {
        VssClient {
            stage: Stage::Uninitialized,
            context: VSS_CTX_BACKUP,
            during_restore: false,
            latest_snapshot_set_id: None,
            snapshot_ids: Vec::new(),
        }
    }

    pub fn stage(&self) -> (r: Stage)
        ensures
            r == self@.stage,
    {
        self.stage
    }

    pub fn context(&self) -> (r: i32)
        ensures
            r == self@.context,
    {
        self.context
    }

    pub fn during_restore(&self) -> (r: bool)
        ensures
            r == self@.during_restore,
    {
        self.during_restore
    }

    pub fn latest_snapshot_set_id(&self) -> (r: Option<Guid>)
        ensures
            r == self@.snapshot_set_id,
    {
        self.latest_snapshot_set_id
    }

    /// The snapshots added to the current set, in the order added.
    pub fn snapshot_ids(&self) -> (r: Vec<Guid>)
        ensures
            r@ == self@.snapshot_ids,
    {
        let mut out: Vec<Guid> = Vec::new();
        let mut i: usize = 0;
        while i < self.snapshot_ids.len()
            invariant
                i <= self.snapshot_ids@.len(),
                out@ == self.snapshot_ids@.take(i as int),
            decreases self.snapshot_ids@.len() - i,
        {
            out.push(self.snapshot_ids[i]);
            i = i + 1;
            assert(out@ =~= self.snapshot_ids@.take(i as int));
        }
        assert(out@ =~= self.snapshot_ids@);
        out
    }

    /// Whether `op` may be issued now. The caller asks before each service
    /// call, so that no call leaves in the wrong order.
    pub fn check_ordering(&self, op: Operation) -> (r: Result<(), ServiceError>)
        ensures
            r == ordering_result(self@.stage, op),
    {
        let allowed = match op {
            Operation::Initialize => matches!(self.stage, Stage::Uninitialized),
            Operation::GatherWriterMetadata => matches!(self.stage, Stage::Initialized),
            Operation::StartSnapshotSet => matches!(self.stage, Stage::MetadataGathered),
            Operation::AddToSnapshotSet => matches!(self.stage, Stage::SetStarted | Stage::VolumesAdded),
            Operation::SetBackupState => matches!(
                self.stage,
                Stage::Initialized | Stage::MetadataGathered | Stage::SetStarted | Stage::VolumesAdded
            ),
            Operation::PrepareForBackup => matches!(self.stage, Stage::VolumesAdded),
            Operation::DoSnapshotSet => matches!(self.stage, Stage::Prepared),
            _ => !matches!(self.stage, Stage::Uninitialized),
        };
        if allowed {
            Ok(())
        } else if matches!(op, Operation::Initialize) {
            Err(ServiceError::AlreadyInitialized)
        } else {
            Err(ServiceError::InvalidOrdering { op })
        }
    }

    /// Maps the terminal status of a completed long-running operation to its
    /// outcome.
    pub fn wait_and_check_for_async_operation(&self, async_status: i32, op: Operation) -> (r: Result<
        (),
        ServiceError,
    >)
        ensures
            r == (if failed(async_status) {
                Err(ServiceError::AsyncOperationFailed { code: async_status, op })
            } else {
                Ok(())
            }),
    {
        if async_status < 0 {
            Err(ServiceError::AsyncOperationFailed { code: async_status, op })
        } else {
            Ok(())
        }
    }

    /// Takes a handshake step: refuses it when out of order, and otherwise
    /// advances the stage on success or aborts on failure.
    fn step(&mut self, op: Operation, status: i32, async_status: Option<i32>) -> (r: Result<
        (),
        ServiceError,
    >)
        requires
            is_handshake_step(op),
        ensures
            r == step_result(old(self)@.stage, op, status, async_status),
            final(self)@.stage == stage_after_step(old(self)@.stage, op, status, async_status),
            final(self)@.context == old(self)@.context,
            final(self)@.during_restore == old(self)@.during_restore,
            final(self)@.snapshot_set_id == old(self)@.snapshot_set_id,
            final(self)@.snapshot_ids == old(self)@.snapshot_ids,
    {
        let ordered = self.check_ordering(op);
        if ordered.is_err() {
            return ordered;
        }
        let called = check_status(status, op, Guid(0));
        let r = match called {
            Err(e) => Err(e),
            Ok(()) => match async_status {
                Some(a) => self.wait_and_check_for_async_operation(a, op),
                None => Ok(()),
            },
        };
        if r.is_ok() {
            self.stage = match op {
                Operation::Initialize => Stage::Initialized,
                Operation::GatherWriterMetadata => Stage::MetadataGathered,
                Operation::StartSnapshotSet => Stage::SetStarted,
                Operation::AddToSnapshotSet => Stage::VolumesAdded,
                Operation::PrepareForBackup => Stage::Prepared,
                Operation::DoSnapshotSet => Stage::Committed,
                _ => self.stage,
            };
        } else {
            self.stage = Stage::Aborted;
        }
        r
    }

    /// The setup calls that `initialize` stands for, in the order the caller
    /// makes them.
    pub fn initialize_plan(context: i32, restore: bool) -> (r: Vec<SetupCall>)
        ensures
            r@ == setup_calls(context, restore),
    {
        let mut calls: Vec<SetupCall> = Vec::new();
        if restore {
            calls.push(SetupCall::InitializeForRestore);
        } else {
            calls.push(SetupCall::InitializeForBackup);
            if context != VSS_CTX_BACKUP {
                calls.push(SetupCall::SetContext(context));
            }
        }
        calls.push(
            SetupCall::SetBackupState {
                select_components: true,
                backup_bootable_system_state: true,
                backup_type: VSS_BT_FULL,
                partial_file_support: false,
            },
        );
        assert(calls@ =~= setup_calls(context, restore));
        calls
    }

    /// Records the outcome of the setup calls of `initialize_plan`: `status` is
    /// the first failure status among them, or a success status when all
    /// succeeded. A session is initialized at most once.
    pub fn initialize(&mut self, context: i32, restore: bool, status: i32) -> (r: Result<
        (),
        ServiceError,
    >)
        ensures
            r == step_result(old(self)@.stage, Operation::Initialize, status, None),
            final(self)@.stage == stage_after_step(
                old(self)@.stage,
                Operation::Initialize,
                status,
                None,
            ),
            old(self)@.stage == Stage::Uninitialized ==> final(self)@.context == context
                && final(self)@.during_restore == restore,
            old(self)@.stage != Stage::Uninitialized ==> final(self)@ == old(self)@,
            final(self)@.snapshot_set_id == old(self)@.snapshot_set_id,
            final(self)@.snapshot_ids == old(self)@.snapshot_ids,
    {
        let r = self.step(Operation::Initialize, status, None);
        if !matches!(r, Err(ServiceError::AlreadyInitialized)) {
            self.context = context;
            self.during_restore = restore;
        }
        r
    }

    /// Records the outcome of gathering writer metadata: the status of the
    /// call and, where it succeeded, the status its completion reported.
    pub fn gather_writer_metadata(&mut self, status: i32, async_status: i32) -> (r: Result<
        (),
        ServiceError,
    >)
        ensures
            r == step_result(
                old(self)@.stage,
                Operation::GatherWriterMetadata,
                status,
                Some(async_status),
            ),
            final(self)@ == (SessionView {
                stage: stage_after_step(
                    old(self)@.stage,
                    Operation::GatherWriterMetadata,
                    status,
                    Some(async_status),
                ),
                ..old(self)@
            }),
    {
        self.step(Operation::GatherWriterMetadata, status, Some(async_status))
    }

    /// Records the outcome of starting a snapshot set: the status of the call
    /// and the set identifier the service allocated.
    pub fn start_snapshot_set(&mut self, status: i32, set_id: Guid) -> (r: Result<
        Guid,
        ServiceError,
    >)
        ensures
            match step_result(old(self)@.stage, Operation::StartSnapshotSet, status, None) {
                Ok(()) => r == Ok::<Guid, ServiceError>(set_id) && final(self)@ == (SessionView {
                    stage: Stage::SetStarted,
                    snapshot_set_id: Some(set_id),
                    snapshot_ids: Seq::empty(),
                    ..old(self)@
                }),
                Err(e) => r == Err::<Guid, ServiceError>(e) && final(self)@ == (SessionView {
                    stage: stage_after_step(
                        old(self)@.stage,
                        Operation::StartSnapshotSet,
                        status,
                        None,
                    ),
                    ..old(self)@
                }),
            },
    {
        match self.step(Operation::StartSnapshotSet, status, None) {
            Ok(()) => {
                self.latest_snapshot_set_id = Some(set_id);
                self.snapshot_ids = Vec::new();
                Ok(set_id)
            },
            Err(e) => Err(e),
        }
    }

    /// Records the outcome of adding a volume to the current set: the status
    /// of the call and the snapshot identifier the service allocated.
    pub fn add_to_snapshot_set(&mut self, status: i32, snapshot_id: Guid) -> (r: Result<
        Guid,
        ServiceError,
    >)
        ensures
            match step_result(old(self)@.stage, Operation::AddToSnapshotSet, status, None) {
                Ok(()) => r == Ok::<Guid, ServiceError>(snapshot_id) && final(self)@ == (
                SessionView {
                    stage: Stage::VolumesAdded,
                    snapshot_ids: old(self)@.snapshot_ids.push(snapshot_id),
                    ..old(self)@
                }),
                Err(e) => r == Err::<Guid, ServiceError>(e) && final(self)@ == (SessionView {
                    stage: stage_after_step(
                        old(self)@.stage,
                        Operation::AddToSnapshotSet,
                        status,
                        None,
                    ),
                    ..old(self)@
                }),
            },
    {
        match self.step(Operation::AddToSnapshotSet, status, None) {
            Ok(()) => {
                self.snapshot_ids.push(snapshot_id);
                Ok(snapshot_id)
            },
            Err(e) => Err(e),
        }
    }

    /// Records the outcome of fixing the backup state again before prepare.
    pub fn set_backup_state(&mut self, status: i32) -> (r: Result<(), ServiceError>)
        ensures
            r == step_result(old(self)@.stage, Operation::SetBackupState, status, None),
            final(self)@ == (SessionView {
                stage: stage_after_step(old(self)@.stage, Operation::SetBackupState, status, None),
                ..old(self)@
            }),
    {
        self.step(Operation::SetBackupState, status, None)
    }

    /// Records the outcome of preparing for backup: the status of the call and,
    /// where it succeeded, the status its completion reported.
    pub fn prepare_for_backup(&mut self, status: i32, async_status: i32) -> (r: Result<
        (),
        ServiceError,
    >)
        ensures
            r == step_result(
                old(self)@.stage,
                Operation::PrepareForBackup,
                status,
                Some(async_status),
            ),
            final(self)@ == (SessionView {
                stage: stage_after_step(
                    old(self)@.stage,
                    Operation::PrepareForBackup,
                    status,
                    Some(async_status),
                ),
                ..old(self)@
            }),
    {
        self.step(Operation::PrepareForBackup, status, Some(async_status))
    }

    /// Records the outcome of committing the set: the status of the call and,
    /// where it succeeded, the status its completion reported.
    pub fn do_snapshot_set(&mut self, status: i32, async_status: i32) -> (r: Result<
        (),
        ServiceError,
    >)
        ensures
            r == step_result(old(self)@.stage, Operation::DoSnapshotSet, status, Some(async_status)),
            final(self)@ == (SessionView {
                stage: stage_after_step(
                    old(self)@.stage,
                    Operation::DoSnapshotSet,
                    status,
                    Some(async_status),
                ),
                ..old(self)@
            }),
    {
        self.step(Operation::DoSnapshotSet, status, Some(async_status))
    }

    /// The outcome of a query: `status` is what the query call returned and
    /// `records` what its cursor yielded, in order. A service that has no
    /// objects answers `S_FALSE`, which is an empty result, not a failure.
    /// The null identifier as `snapshot_id` keeps every record; another keeps
    /// the snapshot with that identifier.
    pub fn query_snapshot_set(
        &self,
        snapshot_id: Guid,
        status: i32,
        records: &Vec<NativeSnapshotProp>,
    ) -> (r: Result<Vec<VSSProp>, ServiceError>)
        ensures
            !op_allowed(self@.stage, Operation::Query) ==> r == Err::<Vec<VSSProp>, ServiceError>(
                ServiceError::InvalidOrdering { op: Operation::Query },
            ),
            op_allowed(self@.stage, Operation::Query) && failed(status) ==> r == Err::<
                Vec<VSSProp>,
                ServiceError,
            >(call_error(status, Operation::Query, snapshot_id)),
            op_allowed(self@.stage, Operation::Query) && status == S_FALSE ==> r is Ok
                && r->Ok_0@.len() == 0,
            op_allowed(self@.stage, Operation::Query) && !failed(status) && status != S_FALSE
                ==> r is Ok && decodes_all(selected(records@, snapshot_id), r->Ok_0@),
    {
        if let Err(e) = self.check_ordering(Operation::Query) {
            return Err(e);
        }
        if let Err(e) = check_status(status, Operation::Query, snapshot_id) {
            return Err(e);
        }
        let mut result: Vec<VSSProp> = Vec::new();
        if status == S_FALSE {
            return Ok(result);
        }
        let ghost pred = |p: NativeSnapshotProp| matches_filter(p, snapshot_id);
        let mut i: usize = 0;
        while i < records.len()
            invariant
                i <= records@.len(),
                pred == (|p: NativeSnapshotProp| matches_filter(p, snapshot_id)),
                decodes_all(records@.take(i as int).filter(pred), result@),
            decreases records@.len() - i,
        {
            let rec = &records[i];
            proof {
                assert(records@.take(i + 1) =~= records@.take(i as int).push(records@[i as int]));
                records@.take(i as int).lemma_filter_push(records@[i as int], pred);
            }
            if snapshot_id.is_zero() || rec.snapshot_id == snapshot_id {
                let p = VSSProp::from_props(rec);
                result.push(p);
            }
            i = i + 1;
        }
        assert(records@.take(records@.len() as int) =~= records@);
        Ok(result)
    }

    /// The outcome of a query for the snapshots of one set: `status` is what
    /// an unfiltered query call returned and `records` what its cursor
    /// yielded, in order. Only the records whose set identifier is `set_id`
    /// are kept; a service without objects (`S_FALSE`) gives none.
    pub fn query_snapshots_in_set(
        &self,
        set_id: Guid,
        status: i32,
        records: &Vec<NativeSnapshotProp>,
    ) -> (r: Result<Vec<VSSProp>, ServiceError>)
        ensures
            !op_allowed(self@.stage, Operation::Query) ==> r == Err::<Vec<VSSProp>, ServiceError>(
                ServiceError::InvalidOrdering { op: Operation::Query },
            ),
            op_allowed(self@.stage, Operation::Query) && failed(status) ==> r == Err::<
                Vec<VSSProp>,
                ServiceError,
            >(call_error(status, Operation::Query, set_id)),
            op_allowed(self@.stage, Operation::Query) && status == S_FALSE ==> r is Ok
                && r->Ok_0@.len() == 0,
            op_allowed(self@.stage, Operation::Query) && !failed(status) && status != S_FALSE
                ==> r is Ok && decodes_all(members(records@, set_id), r->Ok_0@),
    {
        if let Err(e) = self.check_ordering(Operation::Query) {
            return Err(e);
        }
        if let Err(e) = check_status(status, Operation::Query, set_id) {
            return Err(e);
        }
        let mut result: Vec<VSSProp> = Vec::new();
        if status == S_FALSE {
            return Ok(result);
        }
        let ghost pred = |p: NativeSnapshotProp| in_set(p, set_id);
        let mut i: usize = 0;
        while i < records.len()
            invariant
                i <= records@.len(),
                pred == (|p: NativeSnapshotProp| in_set(p, set_id)),
                decodes_all(records@.take(i as int).filter(pred), result@),
            decreases records@.len() - i,
        {
            let rec = &records[i];
            proof {
                assert(records@.take(i + 1) =~= records@.take(i as int).push(records@[i as int]));
                records@.take(i as int).lemma_filter_push(records@[i as int], pred);
            }
            if rec.snapshot_set_id == set_id {
                let p = VSSProp::from_props(rec);
                result.push(p);
            }
            i = i + 1;
        }
        assert(records@.take(records@.len() as int) =~= records@);
        Ok(result)
    }

    /// The outcome of a lookup by identifier: `status` is what the call
    /// returned and `prop` the record it filled.
    pub fn get_snapshot_properties(
        &self,
        snapshot_id: Guid,
        status: i32,
        prop: &NativeSnapshotProp,
    ) -> (r: Result<VSSProp, ServiceError>)
        ensures
            !op_allowed(self@.stage, Operation::GetSnapshotProperties) ==> r == Err::<
                VSSProp,
                ServiceError,
            >(ServiceError::InvalidOrdering { op: Operation::GetSnapshotProperties }),
            op_allowed(self@.stage, Operation::GetSnapshotProperties) && failed(status) ==> r
                == Err::<VSSProp, ServiceError>(
                call_error(status, Operation::GetSnapshotProperties, snapshot_id),
            ),
            op_allowed(self@.stage, Operation::GetSnapshotProperties) && !failed(status) ==> r is Ok
                && decodes(*prop, r->Ok_0),
    {
        if let Err(e) = self.check_ordering(Operation::GetSnapshotProperties) {
            return Err(e);
        }
        if let Err(e) = check_status(status, Operation::GetSnapshotProperties, snapshot_id) {
            return Err(e);
        }
        Ok(VSSProp::from_props(prop))
    }

    /// The outcome of deleting one snapshot (not forced): `status` is what the
    /// call returned and `non_deleted` the identifier the service reported as
    /// the last one it could not delete.
    pub fn delete_snapshot(&self, vss_id: Guid, status: i32, non_deleted: Guid) -> (r: Result<
        (),
        ServiceError,
    >)
        ensures
            r == (if !op_allowed(self@.stage, Operation::DeleteSnapshot) {
                Err(ServiceError::InvalidOrdering { op: Operation::DeleteSnapshot })
            } else {
                call_outcome(status, Operation::DeleteSnapshot, non_deleted)
            }),
    {
        if let Err(e) = self.check_ordering(Operation::DeleteSnapshot) {
            return Err(e);
        }
        check_status(status, Operation::DeleteSnapshot, non_deleted)
    }

    /// The outcome of deleting a snapshot set (not forced): `status` is what
    /// the call returned and `non_deleted` the identifier the service reported
    /// as the last one it could not delete.
    pub fn delete_snapshotset(&self, set_id: Guid, status: i32, non_deleted: Guid) -> (r: Result<
        (),
        ServiceError,
    >)
        ensures
            r == (if !op_allowed(self@.stage, Operation::DeleteSnapshotSet) {
                Err(ServiceError::InvalidOrdering { op: Operation::DeleteSnapshotSet })
            } else {
                call_outcome(status, Operation::DeleteSnapshotSet, non_deleted)
            }),
    {
        if let Err(e) = self.check_ordering(Operation::DeleteSnapshotSet) {
            return Err(e);
        }
        check_status(status, Operation::DeleteSnapshotSet, non_deleted)
    }

    /// The next step of deleting every snapshot of `all` (the result of an
    /// unfiltered query), one at a time in order: `deleted` of them are gone
    /// and the last deletion ended with `last` (`Ok` before the first). The
    /// first failure ends the run; what was deleted stays deleted.
    pub fn delete_all_snapshots(
        &self,
        all: &Vec<VSSProp>,
        deleted: usize,
        last: Result<(), ServiceError>,
    ) -> (r: DeleteStep)
        ensures
            r == delete_all_step(all@, deleted as int, last),
    {
        match last {
            Err(e) => DeleteStep::Finished(Err(e)),
            Ok(()) => if deleted < all.len() {
                DeleteStep::Delete(all[deleted].snapshot_id)
            } else {
                DeleteStep::Finished(Ok(()))
            },
        }
    }

    /// The snapshot to delete to free the oldest one on a volume: among the
    /// snapshots of `all` whose original volume is `unique_volume` (the
    /// volume's canonical name), the one with the earliest creation time, the
    /// first in order among equals. `None` when no snapshot lies on the volume.
    pub fn delete_oldest_snapshot(&self, unique_volume: &str, all: &Vec<VSSProp>) -> (r: Option<
        Guid,
    >)
        requires
            forall|j: int| 0 <= j < all@.len() ==> (#[trigger] all@[j]).create_time.wf(),
        ensures
            r is None <==> !has_snapshot_on(all@, unique_volume@),
            r is Some ==> exists|i: int|
                is_oldest_on(all@, unique_volume@, i) && r == Some(all@[i].snapshot_id),
    {
        let volume = unique_volume.to_owned();
        let mut oldest: Option<usize> = None;
        let mut i: usize = 0;
        while i < all.len()
            invariant
                i <= all@.len(),
                volume@ == unique_volume@,
                forall|j: int| 0 <= j < all@.len() ==> (#[trigger] all@[j]).create_time.wf(),
                oldest is None ==> forall|j: int|
                    0 <= j < i ==> (#[trigger] all@[j]).origin_vol_name@ != unique_volume@,
                oldest is Some ==> is_oldest_on(all@.take(i as int), unique_volume@, oldest->0 as int),
            decreases all@.len() - i,
        {
            let cand = &all[i];
            if cand.origin_vol_name == volume {
                let older = match oldest {
                    None => true,
                    Some(k) => cand.create_time.is_before(&all[k].create_time),
                };
                if older {
                    oldest = Some(i);
                }
            }
            i = i + 1;
            proof {
                let t = all@.take(i as int);
                if let Some(k) = oldest {
                    assert(forall|j: int| 0 <= j < t.len() ==> t[j] == all@[j]);
                }
            }
        }
        assert(all@.take(all@.len() as int) =~= all@);
        match oldest {
            None => None,
            Some(k) => Some(all[k].snapshot_id),
        }
    }
}

} // verus!
