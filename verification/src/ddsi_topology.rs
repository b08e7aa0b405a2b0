//! The whole system: every participant seen so far, and the address of the
//! host that wrote the log.

use crate::ddsi_log_regex::{
    classify, first_match, DdsiLogRegex, DdsiLogType, LineView, Shape,
};
use crate::ddsi_participant::{
    apply, has_time, lemma_history_is_kept, DdsiParticipant, FieldName, ParticipantView, QosView,
    UpdateError, UpdateErrorView,
};
use crate::table::{lemma_table_map_at, lemma_table_map_update, Table};
use vstd::prelude::*;

verus! {

/// What a [`DdsiTopology`] holds, over plain values.
pub struct TopologyView {
    pub own_ip: Seq<char>,
    pub participants: Map<Seq<char>, ParticipantView>,
}

/// The host name that stands for a host not yet known.
pub const UNKNOWN_HOST: &'static str = "unknown";

/// The host name of a topology that has not seen an own-host line.
pub open spec fn unknown_host() -> Seq<char> {
    UNKNOWN_HOST@
}

/// The topology before any line.
pub open spec fn empty_topology() -> TopologyView {
    TopologyView { own_ip: unknown_host(), participants: Map::empty() }
}

/// A participant at the moment of its first mention: no endpoints, and the
/// host that the topology knows as its own at that moment.
pub open spec fn fresh_participant(t: TopologyView, id: Seq<char>) -> ParticipantView {
    ParticipantView {
        system_id: id,
        hostname: t.own_ip,
        readers: Map::empty(),
        writers: Map::empty(),
    }
}

/// The participant that a line with system id `id` is routed to: the one on
/// file, or a fresh one.
pub open spec fn routed(t: TopologyView, id: Seq<char>) -> ParticipantView {
    if t.participants.contains_key(id) {
        t.participants[id]
    } else {
        fresh_participant(t, id)
    }
}

/// The topology after a line, and whether the line was accepted. An own-host
/// line sets the own host and touches no participant. Any other line goes to
/// the participant it names, which is created first if it is new; a
/// participant that rejects the line stays as it was, a new one included.
pub open spec fn step(t: TopologyView, line: LineView) -> (TopologyView, Result<
    (),
    UpdateErrorView,
>) {
    match line.shape {
        Shape::OwnIp => match line.field("hostname"@) {
            Some(host) => (TopologyView { own_ip: host, ..t }, Ok(())),
            None => (t, Err(UpdateErrorView::MalformedField(FieldName::Hostname))),
        },
        _ => match line.field("system_id"@) {
            None => (t, Err(UpdateErrorView::MalformedField(FieldName::SystemId))),
            Some(id) => match apply(routed(t, id), line) {
                Ok(next) => (
                    TopologyView { participants: t.participants.insert(id, next), ..t },
                    Ok(()),
                ),
                Err(e) => (
                    TopologyView { participants: t.participants.insert(id, routed(t, id)), ..t },
                    Err(e),
                ),
            },
        },
    }
}

/// Announcing a writer twice in a topology that has seen nothing else leaves
/// one participant with one writer record: its topic and partition are those
/// of the first announcement, whatever the second one says, and its history
/// holds both times in order.
pub proof fn lemma_reannouncement(first: LineView, second: LineView)
    requires
        first.shape is WriterQos,
        second.shape is WriterQos,
        first.field("system_id"@) is Some,
        first.field("rw_id"@) is Some,
        first.field("topic"@) is Some,
        first.field("partition"@) is Some,
        has_time(first.fields),
        second.field("system_id"@) == first.field("system_id"@),
        second.field("rw_id"@) == first.field("rw_id"@),
        second.field("topic"@) is Some,
        second.field("partition"@) is Some,
        has_time(second.fields),
    ensures
        step(empty_topology(), first).1 is Ok,
        step(step(empty_topology(), first).0, second) == (
            TopologyView {
                own_ip: unknown_host(),
                participants: Map::empty().insert(
                    first.field("system_id"@)->0,
                    ParticipantView {
                        system_id: first.field("system_id"@)->0,
                        hostname: unknown_host(),
                        readers: Map::empty(),
                        writers: Map::empty().insert(
                            first.field("rw_id"@)->0,
                            QosView {
                                topic: first.field("topic"@)->0,
                                partition: first.field("partition"@)->0,
                                created: seq![
                                    first.field("timestamp"@)->0,
                                    second.field("timestamp"@)->0,
                                ],
                                deleted: Seq::empty(),
                            },
                        ),
                    },
                ),
            },
            Ok::<(), UpdateErrorView>(()),
        ),
{
    let id = first.field("system_id"@)->0;
    let rw = first.field("rw_id"@)->0;
    let one = step(empty_topology(), first).0;
    assert(one.participants.contains_key(id));
    let p = one.participants[id];
    assert(p.writers.contains_key(rw));
    let two = step(one, second).0;
    let q = two.participants[id];
    assert(q.writers[rw].created =~= seq![
        first.field("timestamp"@)->0,
        second.field("timestamp"@)->0,
    ]);
    assert(q.writers =~= Map::empty().insert(rw, q.writers[rw]));
    assert(two.participants =~= Map::empty().insert(id, q));
}

/// An own-host line never touches the participants, and the own host it sets
/// lasts only until the next one: after two such lines nothing is left of the
/// first.
pub proof fn lemma_own_host_isolated(t: TopologyView, first: LineView, second: LineView)
    requires
        first.shape is OwnIp,
        second.shape is OwnIp,
        second.field("hostname"@) is Some,
    ensures
        step(t, first).0.participants == t.participants,
        first.field("hostname"@) matches Some(host) ==> step(t, first).0.own_ip == host,
        step(step(t, first).0, second).0 == step(t, second).0,
        step(t, second).0.own_ip == second.field("hostname"@)->0,
{
}

/// A line that names a participant leaves the own host alone, and every other
/// participant as it was.
pub proof fn lemma_routing_is_local(t: TopologyView, line: LineView, other: Seq<char>)
    requires
        !(line.shape is OwnIp),
        line.field("system_id"@) != Some(other),
    ensures
        step(t, line).0.own_ip == t.own_ip,
        step(t, line).0.participants.contains_key(other) == t.participants.contains_key(other),
        t.participants.contains_key(other) ==> step(t, line).0.participants[other]
            == t.participants[other],
{
}


/// No line removes a participant: whoever is on file stays on file.
pub proof fn lemma_participants_persist(t: TopologyView, line: LineView, id: Seq<char>)
    requires
        t.participants.contains_key(id),
    ensures
        step(t, line).0.participants.contains_key(id),
{
}

/// Whether every participant is filed under its own system id.
pub open spec fn filed_by_id(t: TopologyView) -> bool {
    forall|id: Seq<char>| #[trigger]
        t.participants.contains_key(id) ==> t.participants[id].system_id == id
}

/// Filing by system id is kept by every line, and where it holds no line is
/// ever rejected for carrying the wrong system id.
pub proof fn lemma_filing_is_kept(t: TopologyView, line: LineView)
    requires
        filed_by_id(t),
    ensures
        filed_by_id(step(t, line).0),
        !(step(t, line).1 matches Err(UpdateErrorView::WrongSystemId { .. })),
{
    if !(line.shape is OwnIp) && line.field("system_id"@) is Some {
        let id = line.field("system_id"@)->0;
        if apply(routed(t, id), line) is Ok {
            lemma_history_is_kept(routed(t, id), line, id);
        }
    }
}

/// What became of one line of the log.
#[derive(Debug)]
pub enum LineOutcome {
    /// The line has none of the known shapes and was skipped.
    Unrecognized,
    /// The line was recognised and applied.
    Applied,
    /// The line was recognised and rejected, for the reason given.
    Rejected(UpdateError),
}

/// The participants of a system and the address of the logging host.
#[derive(Debug)]
pub struct DdsiTopology {
    participants: Table<DdsiParticipant>,
    own_ip: String,
}

impl View for DdsiTopology {
    type V = TopologyView;

    closed spec fn view(&self) -> TopologyView {
        TopologyView {
            own_ip: self.own_ip@,
            participants: self.participants.map().map_values(|p: DdsiParticipant| p@),
        }
    }
}

impl DdsiTopology {
    /// Every participant is filed under its own system id.
    #[verifier::type_invariant]
    closed spec fn keeps_filing(&self) -> bool {
        forall|i: int|
            0 <= i < self.participants.values().len() ==> (
            #[trigger] self.participants.values()[i])@.system_id == self.participants.keys()[i]
    }

    /// What the invariant says of the view.
    proof fn lemma_view_is_filed(&self)
        requires
            self.keeps_filing(),
            self.participants.wf(),
        ensures
            filed_by_id(self@),
    {
        let keys = self.participants.keys();
        assert forall|id: Seq<char>| #[trigger]
            self@.participants.contains_key(id) implies self@.participants[id].system_id
            == id by {
            let i = keys.index_of(id);
            assert(0 <= i < keys.len() && keys[i] == id);
            lemma_table_map_at(keys, self.participants.values(), i);
        }
    }

    /// A topology without participants, on a host not yet known.
    pub fn new() -> (r: DdsiTopology)
        ensures
            r@ == empty_topology(),
    {
        let r = DdsiTopology { participants: Table::new(), own_ip: UNKNOWN_HOST.to_owned() };
        assert(r@.participants =~= Map::empty());
        r
    }

    /// Applies one line. An own-host line sets the own host. Any other line
    /// is routed to the participant it names, which is created first, on the
    /// own host known at that moment, if this is its first mention.
    pub fn update(&mut self, dds_log_type: DdsiLogType) -> (r: Result<(), UpdateError>)
        ensures
            final(self)@ == step(old(self)@, dds_log_type@).0,
            match step(old(self)@, dds_log_type@).1 {
                Ok(_) => r is Ok,
                Err(e) => r is Err && r->Err_0@ == e,
            },
            !(r matches Err(UpdateError::WrongSystemId(_))),
            filed_by_id(final(self)@),
    {
        proof {
            use_type_invariant(&*self);
            use_type_invariant(&self.participants);
            self.lemma_view_is_filed();
        }
        if let DdsiLogType::OwnIp(capture) = &dds_log_type {
            match capture.get("hostname") {
                Some(host) => {
                    self.own_ip = host.clone();
                    Ok(())
                },
                None => Err(UpdateError::MalformedField(FieldName::Hostname)),
            }
        } else {
            if dds_log_type.get_capture().get("system_id").is_none() {
                return Err(UpdateError::MalformedField(FieldName::SystemId));
            }
            let system_id = dds_log_type.get_system_id();
            let ghost before = self@;
            let ghost target = routed(before, system_id@);
            let mut table = Table::new();
            core::mem::swap(&mut self.participants, &mut table);
            let index = match table.find(&system_id) {
                Some(i) => {
                    proof {
                        lemma_table_map_at(table.keys(), table.values(), i as int);
                    }
                    i
                },
                None => {
                    let participant = DdsiParticipant::new(
                        system_id.as_str(),
                        self.own_ip.as_str(),
                    );
                    let i = table.len();
                    table.insert_new(system_id.clone(), participant);
                    i
                },
            };
            let ghost keys = table.keys();
            let ghost values = table.values();
            proof {
                use_type_invariant(&table);
                lemma_table_map_at(keys, values, index as int);
                assert(values[index as int]@ == target);
                assert(table.map().map_values(|p: DdsiParticipant| p@)
                    =~= before.participants.insert(system_id@, target));
            }
            let participant = table.value_at_mut(index);
            let r = participant.update(dds_log_type);
            proof {
                lemma_table_map_update(keys, values, index as int, table.values()[index as int]);
                assert(table.map().map_values(|p: DdsiParticipant| p@)
                    =~= before.participants.insert(
                    system_id@,
                    table.values()[index as int]@,
                ));
            }
            self.participants = table;
            proof {
                self.lemma_view_is_filed();
            }
            r
        }
    }

    /// Classifies one line of the log and applies it. A line of no known
    /// shape changes nothing; a line that is recognised is applied, and the
    /// outcome says whether it was accepted.
    pub fn feed(&mut self, regex: &DdsiLogRegex, text: &str) -> (r: LineOutcome)
        ensures
            filed_by_id(final(self)@),
            r is Unrecognized <==> first_match(text@) is None,
            match classify(text@) {
                None => r is Unrecognized && final(self)@ == old(self)@,
                Some(line) => final(self)@ == step(old(self)@, line).0 && match step(
                    old(self)@,
                    line,
                ).1 {
                    Ok(_) => r is Applied,
                    Err(e) => r is Rejected && r->Rejected_0@ == e,
                },
            },
    {
        proof {
            use_type_invariant(&*self);
            use_type_invariant(&self.participants);
            self.lemma_view_is_filed();
        }
        match regex.parse(text) {
            None => LineOutcome::Unrecognized,
            Some(line) => match self.update(line) {
                Ok(_) => LineOutcome::Applied,
                Err(e) => LineOutcome::Rejected(e),
            },
        }
    }

    /// The number of participants.
    pub fn len(&self) -> (r: usize)
        ensures
            r == self@.participants.dom().len(),
    {
        proof {
            use_type_invariant(&self.participants);
            self.participants.keys().unique_seq_to_set();
            assert(self@.participants.dom() =~= self.participants.keys().to_set());
        }
        self.participants.len()
    }

    /// The system ids of all the participants, each once.
    pub fn get_participants_ids(&self) -> (r: Vec<String>)
        ensures
            r.deep_view().no_duplicates(),
            r.deep_view().to_set() == self@.participants.dom(),
    {
        proof {
            use_type_invariant(&self.participants);
        }
        let r = self.participants.key_list();
        assert(r.deep_view().to_set() =~= self@.participants.dom());
        r
    }

    /// The participant with the given system id, if there is one.
    pub fn get_participant(&self, system_id: &String) -> (r: Option<&DdsiParticipant>)
        ensures
            match r {
                Some(p) => self@.participants.contains_key(system_id@)
                    && self@.participants[system_id@] == p@ && p@.system_id == system_id@,
                None => !self@.participants.contains_key(system_id@),
            },
    {
        match self.participants.find(system_id) {
            Some(i) => {
                proof {
                    use_type_invariant(self);
                    use_type_invariant(&self.participants);
                    lemma_table_map_at(
                        self.participants.keys(),
                        self.participants.values(),
                        i as int,
                    );
                }
                Some(self.participants.value_at(i))
            },
            None => None,
        }
    }

    /// The address of the logging host, as last announced.
    pub fn get_own_ip(&self) -> (r: &String)
        ensures
            r@ == self@.own_ip,
    {
        &self.own_ip
    }
}

} // verus!
