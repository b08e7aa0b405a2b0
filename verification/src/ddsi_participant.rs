//! One participant: its identity, its host, and the readers and writers it
//! was seen to create and delete.

use crate::capture::{lookup, LogCapture};
use crate::ddsi_log_regex::{DdsiLogType, LineView, Shape};
use crate::table::{lemma_table_map_at, lemma_table_map_update, Table};
use crate::timestamp::{is_decimal, Timestamp};
use vstd::prelude::*;
use vstd::string::StringExecFns;

verus! {

/// The fields of a log line that the model reads.
#[derive(Debug, Clone, Copy, PartialEq, Eq, Structural)]
pub enum FieldName {
    /// The system id of the participant the line is about.
    SystemId,
    /// The id of the reader or writer the line is about.
    RwId,
    /// The topic of an announced endpoint.
    Topic,
    /// The partition of an announced endpoint.
    Partition,
    /// The host of a discovered endpoint.
    Hostname,
    /// The time of the line, in seconds.
    Timestamp,
}

/// A line was handed to a participant that it does not belong to.
#[derive(Debug)]
pub struct WrongSystemId {
    /// The system id of the participant.
    pub participant_id: String,
    /// The system id that the line carries.
    pub update_id: String,
}

impl WrongSystemId {
    /// The sentence that reports the mismatch.
    pub fn message(&self) -> (r: String)
        ensures
            r@ == "Input system id "@ + self.update_id@ + " does not match expected id "@
                + self.participant_id@ + "."@,
    {
        let mut out = "Input system id ".to_owned();
        out.append(self.update_id.as_str());
        out.append(" does not match expected id ");
        out.append(self.participant_id.as_str());
        out.append(".");
        out
    }
}

/// Why an update was rejected. A rejected update changes nothing.
#[derive(Debug)]
pub enum UpdateError {
    /// The line carries the system id of another participant.
    WrongSystemId(WrongSystemId),
    /// A field that the update needs is missing from the line or cannot be
    /// read as what it stands for.
    MalformedField(FieldName),
}

/// What an [`UpdateError`] says, over plain values.
pub enum UpdateErrorView {
    WrongSystemId { participant_id: Seq<char>, update_id: Seq<char> },
    MalformedField(FieldName),
}

impl View for UpdateError {
    type V = UpdateErrorView;

    open spec fn view(&self) -> UpdateErrorView {
        match self {
            UpdateError::WrongSystemId(w) => UpdateErrorView::WrongSystemId {
                participant_id: w.participant_id@,
                update_id: w.update_id@,
            },
            UpdateError::MalformedField(f) => UpdateErrorView::MalformedField(*f),
        }
    }
}

/// What a [`Qos`] record holds, over plain values.
pub struct QosView {
    pub topic: Seq<char>,
    pub partition: Seq<char>,
    pub created: Seq<Seq<char>>,
    pub deleted: Seq<Seq<char>>,
}

/// The record of one endpoint: where it reads or writes, and when it was
/// announced and deleted.
#[derive(Debug)]
pub struct Qos {
    topic: String,
    partition: String,
    created: Vec<Timestamp>,
    deleted: Vec<Timestamp>,
}

/// The decimal texts of a list of timestamps.
pub open spec fn times(stamps: Seq<Timestamp>) -> Seq<Seq<char>> {
    stamps.map_values(|t: Timestamp| t@)
}

impl View for Qos {
    type V = QosView;

    closed spec fn view(&self) -> QosView {
        QosView {
            topic: self.topic@,
            partition: self.partition@,
            created: times(self.created@),
            deleted: times(self.deleted@),
        }
    }
}

impl Qos {
    /// A record for an endpoint on `topic` and `partition` that has not been
    /// announced or deleted yet.
    pub fn new(topic: String, partition: String) -> (r: Qos)
        ensures
            r@ == (QosView {
                topic: topic@,
                partition: partition@,
                created: Seq::empty(),
                deleted: Seq::empty(),
            }),
    {
        let r = Qos { topic, partition, created: Vec::new(), deleted: Vec::new() };
        assert(r@.created =~= Seq::empty());
        assert(r@.deleted =~= Seq::empty());
        r
    }

    /// The topic of the endpoint.
    pub fn get_topic(&self) -> (r: &String)
        ensures
            r@ == self@.topic,
    {
        &self.topic
    }

    /// The partition of the endpoint.
    pub fn get_partition(&self) -> (r: &String)
        ensures
            r@ == self@.partition,
    {
        &self.partition
    }

    /// The times at which the endpoint was announced, oldest first.
    pub fn get_created(&self) -> (r: &Vec<Timestamp>)
        ensures
            times(r@) == self@.created,
    {
        &self.created
    }

    /// The times at which the endpoint was deleted, oldest first.
    pub fn get_deleted(&self) -> (r: &Vec<Timestamp>)
        ensures
            times(r@) == self@.deleted,
    {
        &self.deleted
    }

    /// Records one more announcement.
    fn push_created(&mut self, at: Timestamp)
        ensures
            final(self)@ == (QosView { created: old(self)@.created.push(at@), ..old(self)@ }),
    {
        self.created.push(at);
        assert(times(self.created@) =~= times(old(self).created@).push(at@));
    }

    /// Records one more deletion.
    fn push_deleted(&mut self, at: Timestamp)
        ensures
            final(self)@ == (QosView { deleted: old(self)@.deleted.push(at@), ..old(self)@ }),
    {
        self.deleted.push(at);
        assert(times(self.deleted@) =~= times(old(self).deleted@).push(at@));
    }
}

/// What a [`DdsiParticipant`] holds, over plain values.
pub struct ParticipantView {
    pub system_id: Seq<char>,
    pub hostname: Seq<char>,
    pub readers: Map<Seq<char>, QosView>,
    pub writers: Map<Seq<char>, QosView>,
}

/// The endpoint table after an announcement of `id`: a new id gets a record
/// with the announced topic and partition; a known id keeps its record. In
/// both cases the time is appended to the record's announcements.
pub open spec fn announce(
    table: Map<Seq<char>, QosView>,
    id: Seq<char>,
    topic: Seq<char>,
    partition: Seq<char>,
    at: Seq<char>,
) -> Map<Seq<char>, QosView> {
    if table.contains_key(id) {
        table.insert(id, QosView { created: table[id].created.push(at), ..table[id] })
    } else {
        table.insert(
            id,
            QosView { topic, partition, created: seq![at], deleted: Seq::empty() },
        )
    }
}

/// The endpoint table after a deletion of `id`: a known id gets the time
/// appended to its deletions; an unknown id changes nothing.
pub open spec fn retract(table: Map<Seq<char>, QosView>, id: Seq<char>, at: Seq<char>) -> Map<
    Seq<char>,
    QosView,
> {
    if table.contains_key(id) {
        table.insert(id, QosView { deleted: table[id].deleted.push(at), ..table[id] })
    } else {
        table
    }
}

/// Whether the fields hold a timestamp that reads as a decimal number.
pub open spec fn has_time(fields: Seq<(Seq<char>, Seq<char>)>) -> bool {
    lookup(fields, "timestamp"@) matches Some(text) && is_decimal(text)
}

/// What an announcement with the given fields makes of an endpoint table.
pub open spec fn announced(table: Map<Seq<char>, QosView>, fields: Seq<(Seq<char>, Seq<char>)>)
    -> Result<Map<Seq<char>, QosView>, UpdateErrorView> {
    if lookup(fields, "rw_id"@) is None {
        Err(UpdateErrorView::MalformedField(FieldName::RwId))
    } else if lookup(fields, "topic"@) is None {
        Err(UpdateErrorView::MalformedField(FieldName::Topic))
    } else if lookup(fields, "partition"@) is None {
        Err(UpdateErrorView::MalformedField(FieldName::Partition))
    } else if !has_time(fields) {
        Err(UpdateErrorView::MalformedField(FieldName::Timestamp))
    } else {
        Ok(
            announce(
                table,
                lookup(fields, "rw_id"@)->0,
                lookup(fields, "topic"@)->0,
                lookup(fields, "partition"@)->0,
                lookup(fields, "timestamp"@)->0,
            ),
        )
    }
}

/// What a deletion with the given fields makes of an endpoint table. The
/// timestamp is read only where there is a record to append it to.
pub open spec fn retracted(table: Map<Seq<char>, QosView>, fields: Seq<(Seq<char>, Seq<char>)>)
    -> Result<Map<Seq<char>, QosView>, UpdateErrorView> {
    match lookup(fields, "rw_id"@) {
        None => Err(UpdateErrorView::MalformedField(FieldName::RwId)),
        Some(id) => if !table.contains_key(id) {
            Ok(table)
        } else if !has_time(fields) {
            Err(UpdateErrorView::MalformedField(FieldName::Timestamp))
        } else {
            Ok(retract(table, id, lookup(fields, "timestamp"@)->0))
        },
    }
}

/// Why a line with the given fields is not for participant `p`, if it is not.
pub open spec fn identity_error(p: ParticipantView, fields: Seq<(Seq<char>, Seq<char>)>) -> Option<
    UpdateErrorView,
> {
    match lookup(fields, "system_id"@) {
        None => Some(UpdateErrorView::MalformedField(FieldName::SystemId)),
        Some(id) => if id != p.system_id {
            Some(UpdateErrorView::WrongSystemId { participant_id: p.system_id, update_id: id })
        } else {
            None
        },
    }
}

/// The participant after the announcement of a writer (`writer`) or a reader.
/// A discovery (`discovered`) also sets the participant's host.
pub open spec fn apply_announce(
    p: ParticipantView,
    fields: Seq<(Seq<char>, Seq<char>)>,
    writer: bool,
    discovered: bool,
) -> Result<ParticipantView, UpdateErrorView> {
    match identity_error(p, fields) {
        Some(e) => Err(e),
        None => if discovered && lookup(fields, "hostname"@) is None {
            Err(UpdateErrorView::MalformedField(FieldName::Hostname))
        } else {
            let hostname = if discovered {
                lookup(fields, "hostname"@)->0
            } else {
                p.hostname
            };
            match announced(if writer { p.writers } else { p.readers }, fields) {
                Err(e) => Err(e),
                Ok(table) => Ok(
                    if writer {
                        ParticipantView { hostname, writers: table, ..p }
                    } else {
                        ParticipantView { hostname, readers: table, ..p }
                    },
                ),
            }
        },
    }
}

/// The participant after the deletion of a writer (`writer`) or a reader.
pub open spec fn apply_retract(
    p: ParticipantView,
    fields: Seq<(Seq<char>, Seq<char>)>,
    writer: bool,
) -> Result<ParticipantView, UpdateErrorView> {
    match identity_error(p, fields) {
        Some(e) => Err(e),
        None => match retracted(if writer { p.writers } else { p.readers }, fields) {
            Err(e) => Err(e),
            Ok(table) => Ok(
                if writer {
                    ParticipantView { writers: table, ..p }
                } else {
                    ParticipantView { readers: table, ..p }
                },
            ),
        },
    }
}

/// The participant after a self-discovery line: the identity is confirmed and
/// nothing changes.
pub open spec fn apply_confirm(p: ParticipantView, fields: Seq<(Seq<char>, Seq<char>)>) -> Result<
    ParticipantView,
    UpdateErrorView,
> {
    match identity_error(p, fields) {
        Some(e) => Err(e),
        None => Ok(p),
    }
}

/// The participant after a line, or the reason why the line is rejected.
pub open spec fn apply(p: ParticipantView, line: LineView) -> Result<
    ParticipantView,
    UpdateErrorView,
> {
    match line.shape {
        Shape::HandleParticipantsSelf => apply_confirm(p, line.fields),
        Shape::WriterQos => apply_announce(p, line.fields, true, false),
        Shape::ReaderQos => apply_announce(p, line.fields, false, false),
        Shape::WriterSedpSt0 => apply_announce(p, line.fields, true, true),
        Shape::ReaderSedpSt0 => apply_announce(p, line.fields, false, true),
        Shape::OwnIp => Ok(p),
        Shape::WriterSedpSt3 => apply_retract(p, line.fields, true),
        Shape::ReaderSedpSt3 => apply_retract(p, line.fields, false),
    }
}

/// A deletion of an endpoint that the participant has no record of changes
/// nothing: the line is accepted and no record comes into being.
pub proof fn lemma_deletion_of_unknown_endpoint(p: ParticipantView, line: LineView)
    requires
        line.shape is WriterSedpSt3 || line.shape is ReaderSedpSt3,
        line.field("system_id"@) == Some(p.system_id),
        line.field("rw_id"@) matches Some(id) && !(if line.shape is WriterSedpSt3 {
            p.writers
        } else {
            p.readers
        }).contains_key(id),
    ensures
        apply(p, line) == Ok::<ParticipantView, UpdateErrorView>(p),
{
}

/// A line that carries the system id of another participant is rejected with
/// both ids reported, whatever else it holds. A rejected update leaves the
/// participant as it was (see [`agrees`]).
pub proof fn lemma_mismatch_rejected(p: ParticipantView, line: LineView)
    requires
        !(line.shape is OwnIp),
        line.field("system_id"@) matches Some(id) && id != p.system_id,
    ensures
        apply(p, line) == Err::<ParticipantView, UpdateErrorView>(
            UpdateErrorView::WrongSystemId {
                participant_id: p.system_id,
                update_id: line.field("system_id"@)->0,
            },
        ),
{
}

/// What an accepted line leaves of an endpoint record: the record stays, with
/// its topic and partition, and its announcements and deletions are only
/// ever appended to.
pub open spec fn extends(before: QosView, after: QosView) -> bool {
    &&& after.topic == before.topic
    &&& after.partition == before.partition
    &&& before.created.is_prefix_of(after.created)
    &&& before.deleted.is_prefix_of(after.deleted)
}

/// No line removes an endpoint record, rewrites its topic or partition, or
/// drops a time from its history; and no line changes the participant's
/// system id.
pub proof fn lemma_history_is_kept(p: ParticipantView, line: LineView, id: Seq<char>)
    requires
        apply(p, line) is Ok,
    ensures
        (apply(p, line)->Ok_0).system_id == p.system_id,
        p.writers.contains_key(id) ==> (apply(p, line)->Ok_0).writers.contains_key(id) && extends(
            p.writers[id],
            (apply(p, line)->Ok_0).writers[id],
        ),
        p.readers.contains_key(id) ==> (apply(p, line)->Ok_0).readers.contains_key(id) && extends(
            p.readers[id],
            (apply(p, line)->Ok_0).readers[id],
        ),
{
}


/// Whether the result `r` of an update from `before` to `after` is what
/// `expected` asks for: the new state on success, the error and the old state
/// on failure.
pub open spec fn agrees<S>(
    before: S,
    after: S,
    r: Result<(), UpdateError>,
    expected: Result<S, UpdateErrorView>,
) -> bool {
    match expected {
        Ok(next) => r is Ok && after == next,
        Err(e) => r is Err && r->Err_0@ == e && after == before,
    }
}

/// The mapping from endpoint id to record that a table stands for.
pub open spec fn records(table: Table<Qos>) -> Map<Seq<char>, QosView> {
    table.map().map_values(|q: Qos| q@)
}

/// Reads the timestamp of a line.
fn read_time(capture: &LogCapture) -> (r: Option<Timestamp>)
    ensures
        r is Some <==> has_time(capture@),
        r matches Some(t) ==> Some(t@) == lookup(capture@, "timestamp"@),
{
    match capture.get("timestamp") {
        Some(text) => Timestamp::parse(text.as_str()),
        None => None,
    }
}

/// Applies an announcement to an endpoint table.
fn announce_in(table: &mut Table<Qos>, capture: &LogCapture) -> (r: Result<(), UpdateError>)
    ensures
        agrees(records(*old(table)), records(*final(table)), r, announced(records(*old(table)), capture@)),
        r is Err ==> *final(table) == *old(table),
{
    let rw_id = match capture.get("rw_id") {
        Some(text) => text,
        None => {
            return Err(UpdateError::MalformedField(FieldName::RwId));
        },
    };
    let topic = match capture.get("topic") {
        Some(text) => text,
        None => {
            return Err(UpdateError::MalformedField(FieldName::Topic));
        },
    };
    let partition = match capture.get("partition") {
        Some(text) => text,
        None => {
            return Err(UpdateError::MalformedField(FieldName::Partition));
        },
    };
    let at = match read_time(capture) {
        Some(at) => at,
        None => {
            return Err(UpdateError::MalformedField(FieldName::Timestamp));
        },
    };
    let ghost before = records(*table);
    proof {
        use_type_invariant(&*table);
    }
    match table.find(rw_id) {
        Some(i) => {
            proof {
                use_type_invariant(&*table);
                lemma_table_map_at(table.keys(), table.values(), i as int);
            }
            let record = table.value_at_mut(i);
            record.push_created(at);
            proof {
                lemma_table_map_update(
                    old(table).keys(),
                    old(table).values(),
                    i as int,
                    table.values()[i as int],
                );
                assert(records(*table) =~= announce(
                    before,
                    rw_id@,
                    topic@,
                    partition@,
                    at@,
                ));
            }
        },
        None => {
            let mut record = Qos::new(topic.clone(), partition.clone());
            record.push_created(at);
            table.insert_new(rw_id.clone(), record);
            proof {
                assert(record@.created =~= seq![at@]);
                assert(records(*table) =~= announce(
                    before,
                    rw_id@,
                    topic@,
                    partition@,
                    at@,
                ));
            }
        },
    }
    Ok(())
}

/// Applies a deletion to an endpoint table.
fn retract_in(table: &mut Table<Qos>, capture: &LogCapture) -> (r: Result<(), UpdateError>)
    ensures
        agrees(records(*old(table)), records(*final(table)), r, retracted(records(*old(table)), capture@)),
        r is Err ==> *final(table) == *old(table),
{
    let rw_id = match capture.get("rw_id") {
        Some(text) => text,
        None => {
            return Err(UpdateError::MalformedField(FieldName::RwId));
        },
    };
    let ghost before = records(*table);
    proof {
        use_type_invariant(&*table);
    }
    match table.find(rw_id) {
        Some(i) => {
            proof {
                use_type_invariant(&*table);
                lemma_table_map_at(table.keys(), table.values(), i as int);
            }
            let at = match read_time(capture) {
                Some(at) => at,
                None => {
                    return Err(UpdateError::MalformedField(FieldName::Timestamp));
                },
            };
            let record = table.value_at_mut(i);
            record.push_deleted(at);
            proof {
                lemma_table_map_update(
                    old(table).keys(),
                    old(table).values(),
                    i as int,
                    table.values()[i as int],
                );
                assert(records(*table) =~= retract(before, rw_id@, at@));
            }
        },
        None => {},
    }
    Ok(())
}

/// One participant of the system.
#[derive(Debug)]
pub struct DdsiParticipant {
    system_id: String,
    hostname: String,
    readers: Table<Qos>,
    writers: Table<Qos>,
}

impl View for DdsiParticipant {
    type V = ParticipantView;

    closed spec fn view(&self) -> ParticipantView {
        ParticipantView {
            system_id: self.system_id@,
            hostname: self.hostname@,
            readers: records(self.readers),
            writers: records(self.writers),
        }
    }
}

impl DdsiParticipant {
    /// A participant without endpoints, on the host known at this moment.
    pub fn new(system_id: &str, own_ip: &str) -> (r: DdsiParticipant)
        ensures
            r@ == (ParticipantView {
                system_id: system_id@,
                hostname: own_ip@,
                readers: Map::empty(),
                writers: Map::empty(),
            }),
    {
        let r = DdsiParticipant {
            system_id: system_id.to_owned(),
            hostname: own_ip.to_owned(),
            readers: Table::new(),
            writers: Table::new(),
        };
        assert(r@.readers =~= Map::empty());
        assert(r@.writers =~= Map::empty());
        r
    }

    /// The system id.
    pub fn get_system_id(&self) -> (r: &String)
        ensures
            r@ == self@.system_id,
    {
        &self.system_id
    }

    /// The host.
    pub fn get_hostname(&self) -> (r: &String)
        ensures
            r@ == self@.hostname,
    {
        &self.hostname
    }

    /// The ids of all the readers, each once.
    pub fn get_readers_id(&self) -> (r: Vec<String>)
        ensures
            r.deep_view().no_duplicates(),
            r.deep_view().to_set() == self@.readers.dom(),
    {
        proof {
            use_type_invariant(&self.readers);
        }
        let r = self.readers.key_list();
        assert(r.deep_view().to_set() =~= self@.readers.dom());
        r
    }

    /// The ids of all the writers, each once.
    pub fn get_writers_id(&self) -> (r: Vec<String>)
        ensures
            r.deep_view().no_duplicates(),
            r.deep_view().to_set() == self@.writers.dom(),
    {
        proof {
            use_type_invariant(&self.writers);
        }
        let r = self.writers.key_list();
        assert(r.deep_view().to_set() =~= self@.writers.dom());
        r
    }

    /// The record of a reader, if the participant has it.
    pub fn get_reader_qos(&self, reader_id: &String) -> (r: Option<&Qos>)
        ensures
            match r {
                Some(qos) => self@.readers.contains_key(reader_id@) && self@.readers[reader_id@]
                    == qos@,
                None => !self@.readers.contains_key(reader_id@),
            },
    {
        match self.readers.find(reader_id) {
            Some(i) => {
                proof {
                    use_type_invariant(&self.readers);
                    lemma_table_map_at(self.readers.keys(), self.readers.values(), i as int);
                }
                Some(self.readers.value_at(i))
            },
            None => None,
        }
    }

    /// The record of a writer, if the participant has it.
    pub fn get_writer_qos(&self, writer_id: &String) -> (r: Option<&Qos>)
        ensures
            match r {
                Some(qos) => self@.writers.contains_key(writer_id@) && self@.writers[writer_id@]
                    == qos@,
                None => !self@.writers.contains_key(writer_id@),
            },
    {
        match self.writers.find(writer_id) {
            Some(i) => {
                proof {
                    use_type_invariant(&self.writers);
                    lemma_table_map_at(self.writers.keys(), self.writers.values(), i as int);
                }
                Some(self.writers.value_at(i))
            },
            None => None,
        }
    }

    /// Applies one line to the participant. A line that carries another
    /// system id, or lacks a field that the update reads, is rejected and
    /// changes nothing.
    pub fn update(&mut self, ddsi_log_type: DdsiLogType) -> (r: Result<(), UpdateError>)
        ensures
            agrees(old(self)@, final(self)@, r, apply(old(self)@, ddsi_log_type@)),
            r is Err ==> final(self)@ == old(self)@,
            final(self)@.system_id == old(self)@.system_id,
    {
        match ddsi_log_type {
            DdsiLogType::WriterQos(capture) => self.update_writer_qos(&capture),
            DdsiLogType::ReaderQos(capture) => self.update_reader_qos(&capture),
            DdsiLogType::WriterSedpSt0(capture) => self.update_writer_sedp_st0(&capture),
            DdsiLogType::ReaderSedpSt0(capture) => self.update_reader_sedp_st0(&capture),
            DdsiLogType::WriterSedpSt3(capture) => self.update_writer_sedp_st3(&capture),
            DdsiLogType::ReaderSedpSt3(capture) => self.update_reader_sedp_st3(&capture),
            DdsiLogType::OwnIp(_) => Ok(()),
            DdsiLogType::HandleParticipantsSelf(capture) => self.check_system_id(&capture),
        }
    }

    /// Checks that a line is for this participant.
    fn check_system_id(&self, capture: &LogCapture) -> (r: Result<(), UpdateError>)
        ensures
            match identity_error(self@, capture@) {
                Some(e) => r is Err && r->Err_0@ == e,
                None => r is Ok,
            },
    {
        match capture.get("system_id") {
            None => Err(UpdateError::MalformedField(FieldName::SystemId)),
            Some(other_id) => {
                if *other_id != self.system_id {
                    return Err(
                        UpdateError::WrongSystemId(
                            WrongSystemId {
                                participant_id: self.system_id.clone(),
                                update_id: other_id.clone(),
                            },
                        ),
                    );
                }
                Ok(())
            },
        }
    }

    /// Applies the announcement of a writer.
    fn update_writer_qos(&mut self, capture: &LogCapture) -> (r: Result<(), UpdateError>)
        ensures
            agrees(old(self)@, final(self)@, r, apply_announce(old(self)@, capture@, true, false)),
            identity_error(old(self)@, capture@) matches Some(e) ==> r is Err && r->Err_0@ == e
                && final(self)@ == old(self)@,
    {
        if let Err(check) = self.check_system_id(capture) {
            return Err(check);
        }
        announce_in(&mut self.writers, capture)
    }

    /// Applies the announcement of a reader.
    fn update_reader_qos(&mut self, capture: &LogCapture) -> (r: Result<(), UpdateError>)
        ensures
            agrees(old(self)@, final(self)@, r, apply_announce(old(self)@, capture@, false, false)),
            identity_error(old(self)@, capture@) matches Some(e) ==> r is Err && r->Err_0@ == e
                && final(self)@ == old(self)@,
    {
        if let Err(check) = self.check_system_id(capture) {
            return Err(check);
        }
        announce_in(&mut self.readers, capture)
    }

    /// Applies the discovery of a remote writer, which also tells the host.
    fn update_writer_sedp_st0(&mut self, capture: &LogCapture) -> (r: Result<(), UpdateError>)
        ensures
            agrees(old(self)@, final(self)@, r, apply_announce(old(self)@, capture@, true, true)),
            identity_error(old(self)@, capture@) matches Some(e) ==> r is Err && r->Err_0@ == e
                && final(self)@ == old(self)@,
    {
        if let Err(check) = self.check_system_id(capture) {
            return Err(check);
        }
        let hostname = match capture.get("hostname") {
            Some(text) => text,
            None => {
                return Err(UpdateError::MalformedField(FieldName::Hostname));
            },
        };
        let r = announce_in(&mut self.writers, capture);
        if r.is_ok() {
            self.hostname = hostname.clone();
        }
        r
    }

    /// Applies the discovery of a remote reader, which also tells the host.
    fn update_reader_sedp_st0(&mut self, capture: &LogCapture) -> (r: Result<(), UpdateError>)
        ensures
            agrees(old(self)@, final(self)@, r, apply_announce(old(self)@, capture@, false, true)),
            identity_error(old(self)@, capture@) matches Some(e) ==> r is Err && r->Err_0@ == e
                && final(self)@ == old(self)@,
    {
        if let Err(check) = self.check_system_id(capture) {
            return Err(check);
        }
        let hostname = match capture.get("hostname") {
            Some(text) => text,
            None => {
                return Err(UpdateError::MalformedField(FieldName::Hostname));
            },
        };
        let r = announce_in(&mut self.readers, capture);
        if r.is_ok() {
            self.hostname = hostname.clone();
        }
        r
    }

    /// Applies the deletion of a writer.
    fn update_writer_sedp_st3(&mut self, capture: &LogCapture) -> (r: Result<(), UpdateError>)
        ensures
            agrees(old(self)@, final(self)@, r, apply_retract(old(self)@, capture@, true)),
            identity_error(old(self)@, capture@) matches Some(e) ==> r is Err && r->Err_0@ == e
                && final(self)@ == old(self)@,
    {
        if let Err(check) = self.check_system_id(capture) {
            return Err(check);
        }
        retract_in(&mut self.writers, capture)
    }

    /// Applies the deletion of a reader.
    fn update_reader_sedp_st3(&mut self, capture: &LogCapture) -> (r: Result<(), UpdateError>)
        ensures
            agrees(old(self)@, final(self)@, r, apply_retract(old(self)@, capture@, false)),
            identity_error(old(self)@, capture@) matches Some(e) ==> r is Err && r->Err_0@ == e
                && final(self)@ == old(self)@,
    {
        if let Err(check) = self.check_system_id(capture) {
            return Err(check);
        }
        retract_in(&mut self.readers, capture)
    }
}

} // verus!
