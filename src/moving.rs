//! The move of records, which the remote API cannot express: each record is
//! fetched, refused if it is a directory, deleted, and put again under the
//! destination path. The decisions stand here as a state machine; a caller
//! sends each request it hands out and reports back what came of it.
use vstd::prelude::*;
use crate::api::{is_plain_request, record_url, ApiRequest, Method};
use crate::fields::opt_text_view;
use crate::ids::RecordId;
use crate::ids::UserId;
use crate::record::{record_encoded_as, Record, RecordType};
use crate::session::{is_uuid_text, random_uuid_text, LoggedIn};
use crate::status::{classify_status, status_class_of, StatusClass};
use crate::text::{ascii_lower, join_strings, join_with, lowercase_ascii, string_views};

verus! {

/// An id that this library makes: `R-` and a lower-case hyphenated UUID.
pub open spec fn is_generated_record_id(s: Seq<char>) -> bool {
    s.len() == 38 && s[0] == 'R' && s[1] == '-' && is_uuid_text(s.subrange(2, 38))
}

impl RecordId {
    /// The record id `R-` followed by `uuid`, lower-cased.
    pub fn from_uuid_text(uuid: &str) -> (r: RecordId)
        ensures
            r@ == seq!['R', '-'] + uuid@.map_values(|c: char| ascii_lower(c)),
    {
        proof {
            reveal_strlit("R-");
            assert("R-"@ =~= seq!['R', '-']);
        }
        let lower = lowercase_ascii(uuid);
        let mut s = String::from_str("R-");
        s.append(lower.as_str());
        RecordId(s)
    }

    /// A fresh record id made from a random UUID.
    pub fn generate() -> (r: RecordId)
        ensures
            is_generated_record_id(r@),
    {
        let u = random_uuid_text();
        let r = RecordId::from_uuid_text(u.as_str());
        proof {
            let lowered = u@.map_values(|c: char| ascii_lower(c));
            assert forall|i: int| 0 <= i < u@.len() implies lowered[i] == u@[i] by {
                assert(is_uuid_text(u@));
            }
            assert(lowered =~= u@);
            assert(r@.subrange(2, 38) =~= u@);
        }
        r
    }
}

/// The backslash-separated text of a destination path.
pub open spec fn backslash_path_text(segments: Seq<Seq<char>>) -> Seq<char> {
    join_with(segments, seq!['\\'])
}

/// `new` is `old` with its id and path replaced, all else kept.
pub open spec fn is_relocated(new: Record, old: Record, id: RecordId, path: Seq<char>) -> bool {
    &&& new.id == id
    &&& new.path@ == path
    &&& new.asset_uri == old.asset_uri
    &&& new.global_version == old.global_version
    &&& new.local_version == old.local_version
    &&& new.last_update_by == old.last_update_by
    &&& new.last_update_machine == old.last_update_machine
    &&& new.name == old.name
    &&& new.record_type == old.record_type
    &&& new.owner_name == old.owner_name
    &&& new.tags == old.tags
    &&& new.is_public == old.is_public
    &&& new.is_for_patrons == old.is_for_patrons
    &&& new.is_listed == old.is_listed
    &&& new.is_deleted == old.is_deleted
    &&& new.thumbnail_uri == old.thumbnail_uri
    &&& new.created_at == old.created_at
    &&& new.updated_at == old.updated_at
    &&& new.random_order == old.random_order
    &&& new.visits == old.visits
    &&& new.rating == old.rating
    &&& new.owner_id == old.owner_id
    &&& new.submissions == old.submissions
}

/// What became of one id of a batch.
#[derive(Debug, PartialEq, Eq)]
pub enum ItemOutcome {
    /// No record was found under the id; it was skipped.
    NotFound,
    /// The record now stands at the destination under this id.
    Moved(RecordId),
    /// The source was deleted but putting the record again was answered with
    /// this status; nothing was rolled back.
    PutFailed(u16, StatusClass),
}

/// Where a batch stands.
#[derive(Debug)]
pub enum MovePhase {
    /// The current id is being fetched.
    Fetching,
    /// The source is being deleted; `record` is to be put under `target_id`.
    Deleting { target_id: RecordId, record: Record },
    /// `record` is being put under `target_id`.
    Putting { target_id: RecordId },
    /// Every id has been processed.
    Finished,
    /// A directory was met: the batch stopped before deleting or putting it.
    Aborted,
}

/// What the caller is to do next.
#[derive(Debug)]
pub enum MoveAction {
    /// Send this fetch and report the record it gives with `on_fetched`.
    Fetch(ApiRequest),
    /// Send this delete, then call `on_deleted`.
    Delete(ApiRequest),
    /// Send this put and report its status with `on_put`.
    Put(ApiRequest),
    /// The batch is done.
    Finished,
    /// The batch stopped at a directory, which cannot be moved.
    Aborted,
}

/// A batch of records to move under one destination, processed one id at a
/// time, in order.
#[derive(Debug)]
pub struct MoveBatch {
    pub owner_id: UserId,
    pub record_ids: Vec<RecordId>,
    pub destination: Vec<String>,
    pub keep_record_id: bool,
    /// The index of the id being processed.
    pub next: usize,
    pub phase: MovePhase,
    /// What became of each id before `next`.
    pub outcomes: Vec<ItemOutcome>,
}

impl MoveBatch {
    /// The destination, as written into a moved record's path.
    pub open spec fn destination_text(&self) -> Seq<char> {
        backslash_path_text(string_views(self.destination@))
    }

    /// The id that a record fetched under `source` is put under.
    pub open spec fn target_ok(&self, source: RecordId, target: RecordId) -> bool {
        if self.keep_record_id {
            target == source
        } else {
            is_generated_record_id(target@)
        }
    }

    pub open spec fn wf(&self) -> bool {
        &&& self.next <= self.record_ids@.len()
        &&& self.outcomes@.len() == self.next
        &&& match self.phase {
            MovePhase::Fetching => self.next < self.record_ids@.len(),
            MovePhase::Deleting { target_id, record } => {
                &&& self.next < self.record_ids@.len()
                &&& self.target_ok(self.record_ids@[self.next as int], target_id)
                &&& record.id == target_id
                &&& record.path@ == self.destination_text()
                &&& record.record_type != RecordType::Directory
            },
            MovePhase::Putting { target_id } => {
                &&& self.next < self.record_ids@.len()
                &&& self.target_ok(self.record_ids@[self.next as int], target_id)
            },
            MovePhase::Finished => self.next == self.record_ids@.len(),
            MovePhase::Aborted => self.next < self.record_ids@.len(),
        }
    }

    /// `a` is the action for the state `self` has reached after moving on
    /// from an id: the fetch of the next id, or the end of the batch.
    pub open spec fn is_advance(&self, session: LoggedIn, a: MoveAction) -> bool {
        if self.next < self.record_ids@.len() {
            &&& self.phase is Fetching
            &&& a matches MoveAction::Fetch(req) && is_plain_request(
                req,
                Method::Get,
                record_url(self.owner_id@, self.record_ids@[self.next as int]@),
                session.header(),
            )
        } else {
            &&& self.phase is Finished
            &&& a is Finished
        }
    }

    /// Moves on to the next id, or ends the batch.
    fn advance(&mut self, session: &LoggedIn) -> (r: MoveAction)
        requires
            old(self).next < old(self).record_ids@.len(),
            old(self).outcomes@.len() == old(self).next + 1,
        ensures
            final(self).wf(),
            final(self).next == old(self).next + 1,
            final(self).owner_id == old(self).owner_id,
            final(self).record_ids == old(self).record_ids,
            final(self).destination == old(self).destination,
            final(self).keep_record_id == old(self).keep_record_id,
            final(self).outcomes == old(self).outcomes,
            final(self).is_advance(*session, r),
    {
        let n = self.record_ids.len();
        self.next = self.next + 1;
        if self.next < n {
            self.phase = MovePhase::Fetching;
            MoveAction::Fetch(
                session.get_record_request(&self.owner_id, &self.record_ids[self.next]),
            )
        } else {
            self.phase = MovePhase::Finished;
            MoveAction::Finished
        }
    }

    /// Reports the record that the current fetch gave, with `fresh_id` as
    /// the id to use when ids are not kept. A missing record is skipped; a
    /// directory stops the batch with nothing deleted or put; any other
    /// record is to be deleted, then put again with its path set to the
    /// destination and its id set to the fetched id or to `fresh_id`.
    pub fn on_fetched_with_id(
        &mut self,
        session: &LoggedIn,
        found: Option<Record>,
        fresh_id: RecordId,
    ) -> (r: MoveAction)
        requires
            old(self).wf(),
            old(self).phase is Fetching,
            !old(self).keep_record_id ==> is_generated_record_id(fresh_id@),
        ensures
            final(self).wf(),
            final(self).owner_id == old(self).owner_id,
            final(self).record_ids == old(self).record_ids,
            final(self).destination == old(self).destination,
            final(self).keep_record_id == old(self).keep_record_id,
            found is None ==> final(self).outcomes@ == old(self).outcomes@.push(
                ItemOutcome::NotFound,
            ) && final(self).next == old(self).next + 1 && final(self).is_advance(*session, r),
            found matches Some(rec) ==> rec.record_type == RecordType::Directory ==> (
            final(self).phase is Aborted && r is Aborted && final(self).next == old(self).next
                && final(self).outcomes == old(self).outcomes),
            found matches Some(rec) ==> rec.record_type != RecordType::Directory ==> ({
                let source = old(self).record_ids@[old(self).next as int];
                let target = if old(self).keep_record_id {
                    source
                } else {
                    fresh_id
                };
                &&& final(self).next == old(self).next
                &&& final(self).outcomes == old(self).outcomes
                &&& final(self).phase matches MovePhase::Deleting { target_id, record }
                    && target_id == target && is_relocated(
                    record,
                    rec,
                    target,
                    old(self).destination_text(),
                )
                &&& r matches MoveAction::Delete(req) && is_plain_request(
                    req,
                    Method::Delete,
                    record_url(old(self).owner_id@, source@),
                    session.header(),
                )
            }),
    {
        match found {
            None => {
                self.outcomes.push(ItemOutcome::NotFound);
                self.advance(session)
            },
            Some(rec) => {
                if rec.record_type == RecordType::Directory {
                    self.phase = MovePhase::Aborted;
                    return MoveAction::Aborted;
                }
                let source = self.record_ids[self.next].clone();
                let target = if self.keep_record_id {
                    source.clone()
                } else {
                    fresh_id
                };
                let path = join_strings(&self.destination, "\\");
                proof {
                    reveal_strlit("\\");
                    assert("\\"@ =~= seq!['\\']);
                }
                let mut record = rec;
                record.id = target.clone();
                record.path = path;
                let req = session.delete_record_request(&self.owner_id, &source);
                self.phase = MovePhase::Deleting { target_id: target, record };
                MoveAction::Delete(req)
            },
        }
    }

    /// Reports the record that the current fetch gave; when ids are not
    /// kept, a fresh random id is drawn for it.
    pub fn on_fetched(&mut self, session: &LoggedIn, found: Option<Record>) -> (r: MoveAction)
        requires
            old(self).wf(),
            old(self).phase is Fetching,
        ensures
            final(self).wf(),
            final(self).owner_id == old(self).owner_id,
            final(self).record_ids == old(self).record_ids,
            final(self).destination == old(self).destination,
            final(self).keep_record_id == old(self).keep_record_id,
            found is None ==> final(self).outcomes@ == old(self).outcomes@.push(
                ItemOutcome::NotFound,
            ) && final(self).next == old(self).next + 1 && final(self).is_advance(*session, r),
            found matches Some(rec) ==> rec.record_type == RecordType::Directory ==> (
            final(self).phase is Aborted && r is Aborted && final(self).next == old(self).next
                && final(self).outcomes == old(self).outcomes),
            found matches Some(rec) ==> rec.record_type != RecordType::Directory ==> ({
                let source = old(self).record_ids@[old(self).next as int];
                &&& final(self).next == old(self).next
                &&& final(self).outcomes == old(self).outcomes
                &&& final(self).phase matches MovePhase::Deleting { target_id, record }
                    && old(self).target_ok(source, target_id) && is_relocated(
                    record,
                    rec,
                    target_id,
                    old(self).destination_text(),
                )
                &&& r matches MoveAction::Delete(req) && is_plain_request(
                    req,
                    Method::Delete,
                    record_url(old(self).owner_id@, source@),
                    session.header(),
                )
            }),
    {
        let fresh = if self.keep_record_id {
            self.record_ids[self.next].clone()
        } else {
            RecordId::generate()
        };
        self.on_fetched_with_id(session, found, fresh)
    }

    /// Reports that the source was deleted: the relocated record is to be
    /// put under its id.
    pub fn on_deleted(&mut self, session: &LoggedIn) -> (r: MoveAction)
        requires
            old(self).wf(),
            old(self).phase is Deleting,
        ensures
            final(self).wf(),
            final(self).owner_id == old(self).owner_id,
            final(self).record_ids == old(self).record_ids,
            final(self).destination == old(self).destination,
            final(self).keep_record_id == old(self).keep_record_id,
            final(self).next == old(self).next,
            final(self).outcomes == old(self).outcomes,
            old(self).phase matches MovePhase::Deleting { target_id, record } ==> (
            final(self).phase == MovePhase::Putting { target_id } && (r matches MoveAction::Put(req)
                && req.method == Method::Put && req.url@ == record_url(
                old(self).owner_id@,
                target_id@,
            ) && opt_text_view(req.authorization) == session.header() && req.totp is None && (
            req.body matches Some(j) && record_encoded_as(record, j)))),
    {
        let mut phase = MovePhase::Fetching;
        core::mem::swap(&mut self.phase, &mut phase);
        match phase {
            MovePhase::Deleting { target_id, record } => {
                let req = session.put_record_request(&self.owner_id, &target_id, &record);
                self.phase = MovePhase::Putting { target_id };
                MoveAction::Put(req)
            },
            _ => {
                assert(false);
                MoveAction::Finished
            },
        }
    }

    /// Reports the status of the put: the item is moved on a success, and
    /// failed otherwise; the batch then goes on to the next id.
    pub fn on_put(&mut self, session: &LoggedIn, status: u16) -> (r: MoveAction)
        requires
            old(self).wf(),
            old(self).phase is Putting,
        ensures
            final(self).wf(),
            final(self).owner_id == old(self).owner_id,
            final(self).record_ids == old(self).record_ids,
            final(self).destination == old(self).destination,
            final(self).keep_record_id == old(self).keep_record_id,
            final(self).next == old(self).next + 1,
            final(self).is_advance(*session, r),
            old(self).phase matches MovePhase::Putting { target_id } ==> final(self).outcomes@
                == old(self).outcomes@.push(
                if status_class_of(status as int) == StatusClass::Success {
                    ItemOutcome::Moved(target_id)
                } else {
                    ItemOutcome::PutFailed(status, status_class_of(status as int))
                },
            ),
    {
        let mut phase = MovePhase::Fetching;
        core::mem::swap(&mut self.phase, &mut phase);
        match phase {
            MovePhase::Putting { target_id } => {
                let class = classify_status(status);
                if class == StatusClass::Success {
                    self.outcomes.push(ItemOutcome::Moved(target_id));
                } else {
                    self.outcomes.push(ItemOutcome::PutFailed(status, class));
                }
                self.advance(session)
            },
            _ => {
                assert(false);
                MoveAction::Finished
            },
        }
    }

    /// Whether every processed id was moved or skipped as not found, and the
    /// batch ran to its end.
    pub fn all_succeeded(&self) -> (r: bool)
        ensures
            r == (self.phase is Finished && forall|i: int|
                0 <= i < self.outcomes@.len() ==> !(#[trigger] self.outcomes@[i] is PutFailed)),
    {
        match self.phase {
            MovePhase::Finished => {},
            _ => return false,
        }
        let mut i: usize = 0;
        while i < self.outcomes.len()
            invariant
                self.phase is Finished,
                i <= self.outcomes@.len(),
                forall|k: int| 0 <= k < i ==> !(#[trigger] self.outcomes@[k] is PutFailed),
            decreases self.outcomes@.len() - i,
        {
            match &self.outcomes[i] {
                ItemOutcome::PutFailed(_, _) => return false,
                _ => {},
            }
            i = i + 1;
        }
        true
    }
}

impl LoggedIn {
    /// Starts moving the records `records_to_move` of `owner_id` to the
    /// directory `to`, keeping their ids or giving them fresh ones. The
    /// first action fetches the first id, or ends an empty batch.
    pub fn move_records(
        &self,
        owner_id: UserId,
        records_to_move: Vec<RecordId>,
        to: Vec<String>,
        keep_record_id: bool,
    ) -> (r: (MoveBatch, MoveAction))
        ensures
            r.0.wf(),
            r.0.owner_id == owner_id,
            r.0.record_ids == records_to_move,
            r.0.destination == to,
            r.0.keep_record_id == keep_record_id,
            r.0.next == 0,
            r.0.outcomes@.len() == 0,
            r.0.is_advance(*self, r.1),
    {
        let batch = MoveBatch {
            owner_id,
            record_ids: records_to_move,
            destination: to,
            keep_record_id,
            next: 0,
            phase: MovePhase::Fetching,
            outcomes: Vec::new(),
        };
        if batch.record_ids.len() > 0 {
            let req = self.get_record_request(&batch.owner_id, &batch.record_ids[0]);
            (batch, MoveAction::Fetch(req))
        } else {
            let mut batch = batch;
            batch.phase = MovePhase::Finished;
            (batch, MoveAction::Finished)
        }
    }
}

} // verus!

verus! {

/// A record that a batch is about to put again carries the destination as
/// its path and, when ids are kept, the id it was fetched by. Otherwise it
/// carries a generated `R-` id of a lower-case UUID, which differs from the
/// id it was fetched by whenever that id is not itself of that form.
pub proof fn lemma_moved_record_id_and_path(b: MoveBatch)
    requires
        b.wf(),
        b.phase is Deleting,
    ensures
        b.phase matches MovePhase::Deleting { target_id, record } ==> ({
            let source = b.record_ids@[b.next as int];
            &&& record.id == target_id
            &&& record.path@ == b.destination_text()
            &&& b.keep_record_id ==> target_id == source
            &&& !b.keep_record_id ==> is_generated_record_id(target_id@)
            &&& !b.keep_record_id && !is_generated_record_id(source@) ==> target_id != source
        }),
{
}

} // verus!
