use crate::state::identity::{zero_bytes, Identity};
use vstd::prelude::*;
use vstd::utf8::encode_utf8;

verus! {

/// Most bytes that a task's description may take.
pub const MAX_DESCRIPTION_LEN: usize = 256;

/// Most bytes that the reference to the execution log may take.
pub const MAX_ARWEAVE_TX_ID_LEN: usize = 64;

/// +90 degrees in fixed point; latitudes lie between its negative and it.
pub const MAX_LATITUDE: i64 = 900_000_000;

/// +180 degrees in fixed point; longitudes lie between its negative and it.
pub const MAX_LONGITUDE: i64 = 1_800_000_000;

/// Fixed-point units per degree: seven decimal places.
pub const COORDINATE_SCALE: i64 = 10_000_000;

/// What a record's address is derived from, followed by the task's
/// identifier.
pub const TASK_SEED: &'static str = "task";

/// Bytes of the tag that precedes a stored record.
pub const DISCRIMINATOR_LEN: usize = 8;

/// Bytes that a text takes when stored: its UTF-8 encoding.
pub open spec fn byte_len(s: Seq<char>) -> nat {
    encode_utf8(s).len()
}

/// How far a task has come. A task only ever moves to the next status.
#[derive(Clone, Copy, Debug, PartialEq, Eq, Structural)]
pub enum TaskStatus {
    Created,
    Accepted,
    Completed,
}

impl TaskStatus {
    /// Position of the status in the lifecycle, which is also its stored tag.
    pub open spec fn rank(self) -> nat {
        match self {
            TaskStatus::Created => 0,
            TaskStatus::Accepted => 1,
            TaskStatus::Completed => 2,
        }
    }

    /// The byte under which the status is stored.
    pub fn to_u8(self) -> (tag: u8)
        ensures
            tag == self.rank(),
    {
        match self {
            TaskStatus::Created => 0,
            TaskStatus::Accepted => 1,
            TaskStatus::Completed => 2,
        }
    }

    /// The status stored under a byte; a byte that stands for none is
    /// rejected.
    pub fn from_u8(tag: u8) -> (r: Option<TaskStatus>)
        ensures
            tag <= 2 ==> r is Some && r->0.rank() == tag,
            tag > 2 ==> r is None,
    {
        if tag == 0 {
            Some(TaskStatus::Created)
        } else if tag == 1 {
            Some(TaskStatus::Accepted)
        } else if tag == 2 {
            Some(TaskStatus::Completed)
        } else {
            None
        }
    }
}

/// A task record as a mathematical value: what `TaskAccount` stands for.
pub struct TaskRecord {
    pub creator: Seq<u8>,
    pub operator: Seq<u8>,
    pub status: TaskStatus,
    pub log_reference: Seq<char>,
    pub log_hash: Seq<u8>,
    pub signature: Seq<u8>,
    pub timestamp: int,
    pub latitude: int,
    pub longitude: int,
    pub area_size: nat,
    pub task_type: nat,
    pub altitude: nat,
    pub geofencing_enabled: bool,
    pub description: Seq<char>,
    pub bump: nat,
    pub validator: Seq<u8>,
    pub verification_result: bool,
    pub verification_report_hash: Seq<u8>,
}

impl TaskRecord {
    /// The location lies on the globe.
    pub open spec fn location_valid(self) -> bool {
        &&& -900_000_000 <= self.latitude <= 900_000_000
        &&& -1_800_000_000 <= self.longitude <= 1_800_000_000
    }

    /// The invariant of a stored record: its location is on the globe, its
    /// texts fit, it has no operator before it is accepted and no trace of
    /// an execution before it is completed.
    pub open spec fn wf(self) -> bool {
        &&& self.location_valid()
        &&& byte_len(self.description) <= 256
        &&& byte_len(self.log_reference) <= 64
        &&& self.status == TaskStatus::Created ==> self.operator == Identity::unassigned_view()
        &&& self.status != TaskStatus::Completed ==> {
            &&& self.log_reference == Seq::<char>::empty()
            &&& self.log_hash == zero_bytes(32)
            &&& self.signature == zero_bytes(64)
        }
    }

    /// The record of a task that has just been created at `now`.
    pub open spec fn created(
        creator: Seq<u8>,
        validator: Seq<u8>,
        bump: nat,
        latitude: int,
        longitude: int,
        area_size: nat,
        task_type: nat,
        altitude: nat,
        geofencing_enabled: bool,
        description: Seq<char>,
        now: int,
    ) -> TaskRecord {
        TaskRecord {
            creator,
            operator: Identity::unassigned_view(),
            status: TaskStatus::Created,
            log_reference: Seq::<char>::empty(),
            log_hash: zero_bytes(32),
            signature: zero_bytes(64),
            timestamp: now,
            latitude,
            longitude,
            area_size,
            task_type,
            altitude,
            geofencing_enabled,
            description,
            bump,
            validator,
            verification_result: false,
            verification_report_hash: zero_bytes(32),
        }
    }

    /// The record with its lifecycle fields as they stand at creation.
    pub open spec fn initialized(self, creator: Seq<u8>, timestamp: int) -> TaskRecord {
        TaskRecord {
            status: TaskStatus::Created,
            operator: Identity::unassigned_view(),
            log_reference: Seq::<char>::empty(),
            log_hash: zero_bytes(32),
            signature: zero_bytes(64),
            timestamp,
            creator,
            ..self
        }
    }

    /// The record once `operator` has accepted it at `now`.
    pub open spec fn accepted(self, operator: Seq<u8>, now: int) -> TaskRecord {
        TaskRecord { operator, status: TaskStatus::Accepted, timestamp: now, ..self }
    }

    /// The record once its execution has been reported at `now`.
    pub open spec fn completed(
        self,
        log_reference: Seq<char>,
        log_hash: Seq<u8>,
        signature: Seq<u8>,
        now: int,
    ) -> TaskRecord {
        TaskRecord {
            log_reference,
            log_hash,
            signature,
            status: TaskStatus::Completed,
            timestamp: now,
            ..self
        }
    }

    /// The record once a verification outcome has been written at `now`.
    pub open spec fn verified(self, result: bool, report_hash: Seq<u8>, now: int) -> TaskRecord {
        TaskRecord {
            verification_result: result,
            verification_report_hash: report_hash,
            timestamp: now,
            ..self
        }
    }

    /// Bytes that the record takes when stored: the tag, the fixed fields,
    /// and each text behind a length of four bytes.
    pub open spec fn stored_len(self) -> nat {
        8 + 32 + 32 + 1 + (4 + byte_len(self.log_reference)) + 32 + 64 + 8 + 8 + 8 + 4 + 1 + 2 + 1
            + (4 + byte_len(self.description)) + 1 + 32 + 1 + 32
    }
}

/// The record of one task as the ledger stores it.
#[derive(Clone, Debug, PartialEq, Eq)]
pub struct TaskAccount {
    pub creator: Identity,
    pub operator: Identity,
    pub status: TaskStatus,
    pub arweave_tx_id: String,
    pub log_hash: [u8; 32],
    pub signature: [u8; 64],
    pub timestamp: i64,
    pub location_lat: i64,
    pub location_lng: i64,
    pub area_size: u32,
    pub task_type: u8,
    pub altitude: u16,
    pub geofencing_enabled: bool,
    pub description: String,
    pub bump: u8,
    pub validator_pubkey: Identity,
    pub verification_result: bool,
    pub verification_report_hash: [u8; 32],
}

impl View for TaskAccount {
    type V = TaskRecord;

    open spec fn view(&self) -> TaskRecord {
        TaskRecord {
            creator: self.creator@,
            operator: self.operator@,
            status: self.status,
            log_reference: self.arweave_tx_id@,
            log_hash: self.log_hash@,
            signature: self.signature@,
            timestamp: self.timestamp as int,
            latitude: self.location_lat as int,
            longitude: self.location_lng as int,
            area_size: self.area_size as nat,
            task_type: self.task_type as nat,
            altitude: self.altitude as nat,
            geofencing_enabled: self.geofencing_enabled,
            description: self.description@,
            bump: self.bump as nat,
            validator: self.validator_pubkey@,
            verification_result: self.verification_result,
            verification_report_hash: self.verification_report_hash@,
        }
    }
}

impl TaskAccount {
    /// The invariant of a stored record, see `TaskRecord::wf`.
    pub open spec fn wf(&self) -> bool {
        self@.wf()
    }

    /// A blank record, as storage holds it before a task is created in it.
    pub fn blank() -> (task: TaskAccount)
        ensures
            task@ == (TaskRecord {
                creator: zero_bytes(32),
                operator: zero_bytes(32),
                status: TaskStatus::Created,
                log_reference: Seq::<char>::empty(),
                log_hash: zero_bytes(32),
                signature: zero_bytes(64),
                timestamp: 0,
                latitude: 0,
                longitude: 0,
                area_size: 0,
                task_type: 0,
                altitude: 0,
                geofencing_enabled: false,
                description: Seq::<char>::empty(),
                bump: 0,
                validator: zero_bytes(32),
                verification_result: false,
                verification_report_hash: zero_bytes(32),
            }),
            task.wf(),
    {
        let task = TaskAccount {
            creator: Identity::new([0u8; 32]),
            operator: Identity::new([0u8; 32]),
            status: TaskStatus::Created,
            arweave_tx_id: String::new(),
            log_hash: [0u8; 32],
            signature: [0u8; 64],
            timestamp: 0,
            location_lat: 0,
            location_lng: 0,
            area_size: 0,
            task_type: 0,
            altitude: 0,
            geofencing_enabled: false,
            description: String::new(),
            bump: 0,
            validator_pubkey: Identity::new([0u8; 32]),
            verification_result: false,
            verification_report_hash: [0u8; 32],
        };
        assert(task.creator@ =~= zero_bytes(32));
        assert(task.operator@ =~= zero_bytes(32));
        assert(task.validator_pubkey@ =~= zero_bytes(32));
        assert(task.log_hash@ =~= zero_bytes(32));
        assert(task.signature@ =~= zero_bytes(64));
        assert(task.verification_report_hash@ =~= zero_bytes(32));
        task
    }

    /// Bytes to reserve for a stored record: the tag, the fixed fields, and
    /// both texts at their greatest length. Enough for every record that
    /// meets the invariant, and reached by one whose texts are full.
    pub fn space() -> (r: usize)
        ensures
            r == 595,
            forall|rec: TaskRecord| rec.wf() ==> #[trigger] rec.stored_len() <= r,
            forall|rec: TaskRecord|
                byte_len(rec.log_reference) == 64 && byte_len(rec.description) == 256
                    ==> #[trigger] rec.stored_len() == r,
    {
        DISCRIMINATOR_LEN + 32 + 32 + 1 + (4 + MAX_ARWEAVE_TX_ID_LEN) + 32 + 64 + 8 + 8 + 8 + 4 + 1
            + 2 + 1 + (4 + MAX_DESCRIPTION_LEN) + 1 + 32 + 1 + 32
    }
}

} // verus!
