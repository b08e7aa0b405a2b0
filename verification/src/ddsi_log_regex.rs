//! The classifier: a fixed, ordered catalog of line shapes, and the typed
//! result of recognising one of them in a log line.

use crate::capture::{all_named_fields, lookup, LogCapture};
use crate::engine::{
    capture_names, captures, compile, compile_set, compiles, group_names, group_texts,
    matching_patterns, regex_pattern, regex_set_patterns, set_compiles, set_is_match, set_matches,
    texts,
};
use vstd::prelude::*;
use vstd::string::StringExecFns;

verus! {

/// The header every recognised line starts with: date, time, zone offset and
/// the timestamp in seconds.
pub const HEADER_REGEX: &'static str = r"(?P<year>\d{4})-(?P<month>\d{2})-(?P<day>\d{2})T(?P<hour>\d{2}):(?P<min>\d{2}):(?P<sec>\d{2})\+(?P<timezone>\d{4}) (?P<timestamp>[0-9]*\.[0-9]*)/";

/// The quality-of-service block of a writer.
pub const WRITER_QOS_REGEX: &'static str = r"QOS=\{topic=(?P<topic>[a-zA-Z0-9_]*),type=(?P<type>[a-zA-Z0-9_:]*),presentation=(?P<presentation>[a-zA-Z0-9_:]*),partition=\{(?P<partition>.*)\},durability=(?P<qos_durability>[a-zA-Z0-9_:]*),durability_service=(?P<durability_service>[a-zA-Z0-9_:\{\}\.\-]*),deadline=(?P<deadline>[a-zA-Z0-9\.]*),latency_budget=(?P<latency_budget>[a-zA-Z0-9\.]*),liveliness=(?P<liveliness>[a-zA-Z0-9_:\.]*),reliability=(?P<qos_reliability>[a-zA-Z0-9_:\.]*),destination_order=(?P<destination_order>[a-zA-Z0-9_:]*),history=(?P<history>[a-zA-Z0-9_:\-]*),resource_limits=(?P<resource_limits>[a-zA-Z0-9_:\-]*),transport_priority=(?P<transport_priority>[a-zA-Z0-9_:]*),lifespan=(?P<lifespan>[a-zA-Z0-9_:\.]*),ownership=(?P<ownership>[a-zA-Z0-9_:]*),ownership_strength=(?P<ownership_strength>[a-zA-Z0-9_:]*),writer_data_lifecycle=\{(?P<writer_data_lifecycle>[a-zA-Z0-9_:\.,]*)\},relaxed_qos_matching=(?P<relaxed_qos_matching>[a-zA-Z0-9_:]*),synchronous_endpoint=(?P<synchronous_endpoint>[a-zA-Z0-9_:]*)\}";

/// The quality-of-service block of a reader; the durability service and
/// lifespan clauses may be missing.
pub const READER_QOS_REGEX: &'static str = r"QOS=\{topic=(?P<topic>[a-zA-Z0-9_]*),type=(?P<type>[a-zA-Z0-9_:]*),presentation=(?P<presentation>[a-zA-Z0-9_:]*),partition=\{(?P<partition>.*)\},durability=(?P<qos_durability>[a-zA-Z0-9_:]*)(,durability_service=)?(?P<durability_service>[a-zA-Z0-9_:\{\}\.\-]*)?,deadline=(?P<deadline>[a-zA-Z0-9\.]*),latency_budget=(?P<latency_budget>[a-zA-Z0-9\.]*),liveliness=(?P<liveliness>[a-zA-Z0-9_:\.]*),reliability=(?P<qos_reliability>[a-zA-Z0-9_:\.]*),destination_order=(?P<destination_order>[a-zA-Z0-9_:]*),history=(?P<history>[a-zA-Z0-9_:\-]*),resource_limits=(?P<resource_limits>[a-zA-Z0-9_:\-]*),transport_priority=(?P<transport_priority>[a-zA-Z0-9_:]*)(,lifespan=)?(?P<lifespan>[a-zA-Z0-9_:\.]*)?,ownership=(?P<ownership>[a-zA-Z0-9_:]*),time_based_filter=(?P<time_based_filter>[0-9\.]*),reader_data_lifecycle=(?P<reader_data_lifecycle>[0-9_:\.]*),relaxed_qos_matching=(?P<relaxed_qos_matching>[0-9]*),reader_lifespan=\{(?P<reader_lifespan>[0-9\.,])*\},subscription_keys=\{(?P<subscription_keys>[0-9\{\},]*)\},share=\{(?P<share>[0-9\{\},]*)\},synchronous_endpoint=(?P<synchronous_endpoint>[a-zA-Z0-9_:]*)\}";

/// A system id: three tokens separated by colons.
pub const SYSTEM_ID_REGEX: &'static str = r"(?P<system_id>[a-zA-Z0-9]*:[a-zA-Z0-9]*:[a-zA-Z0-9]*)";

/// An endpoint id.
pub const RW_ID_REGEX: &'static str = r"(?P<rw_id>[a-zA-Z0-9]*)";

/// The reliability kind of a discovered endpoint.
pub const RELIABILITY_REGEX: &'static str = r"(?P<reliability>reliable|best-effort)";

/// The durability kind of a discovered endpoint.
pub const DURABILITY_REGEX: &'static str = r"(?P<durability>transient|volatile)";

/// The direction of a discovered endpoint.
pub const RW_REGEX: &'static str = r"(?P<rw>reader|writer)";

/// The multicast address of a discovered endpoint.
pub const SUBNET_REGEX: &'static str = r"(?P<subnet>[0-9\.]*)";

/// The multicast port of a discovered endpoint.
pub const SUBNET_PORT_REGEX: &'static str = r"(?P<subnet_port>[0-9]*)";

/// A host address.
pub const HOSTNAME_REGEX: &'static str = r"(?P<hostname>[0-9\.]*)";

/// The unicast port of a discovered endpoint.
pub const HOSTNAME_PORT_REGEX: &'static str = r"(?P<hostname_port>[0-9]*)";

/// The pieces of the self-discovery shape.
pub const SELF_DISCOVERY_PARTS: [&'static str; 4] = [
    HEADER_REGEX,
    r"      main: handleParticipantsSelf: found ",
    SYSTEM_ID_REGEX,
    r" \(self\)",
];

/// The pieces of the writer quality-of-service shape.
pub const WRITER_QOS_PARTS: [&'static str; 7] = [
    HEADER_REGEX,
    r"(\s*)(?P<thread>[a-zA-Z0-9_\(\)]*): (?P<rw>[a-zA-Z0-9_]*) ",
    SYSTEM_ID_REGEX,
    r":",
    RW_ID_REGEX,
    r"(\s*)",
    WRITER_QOS_REGEX,
];

/// The pieces of the reader quality-of-service shape.
pub const READER_QOS_PARTS: [&'static str; 7] = [
    HEADER_REGEX,
    r"(\s*)(?P<thread>[a-zA-Z0-9_\(\)]*): (?P<rw>[a-zA-Z0-9_]*) ",
    SYSTEM_ID_REGEX,
    r":",
    RW_ID_REGEX,
    r"(\s*)",
    READER_QOS_REGEX,
];

/// The pieces of the writer discovery shape.
pub const WRITER_SEDP_ST0_PARTS: [&'static str; 22] = [
    HEADER_REGEX,
    r"dq.builtin: SEDP ST0 ",
    SYSTEM_ID_REGEX,
    r":",
    RW_ID_REGEX,
    r" ",
    RELIABILITY_REGEX,
    r" ",
    DURABILITY_REGEX,
    r" ",
    RW_REGEX,
    r": ",
    r"(?P<discard>.*) p\(open\) NEW \(as ",
    SUBNET_REGEX,
    r":",
    SUBNET_PORT_REGEX,
    r" ",
    HOSTNAME_REGEX,
    r":",
    HOSTNAME_PORT_REGEX,
    r"\) ",
    WRITER_QOS_REGEX,
];

/// The pieces of the reader discovery shape.
pub const READER_SEDP_ST0_PARTS: [&'static str; 22] = [
    HEADER_REGEX,
    r"dq.builtin: SEDP ST0 ",
    SYSTEM_ID_REGEX,
    r":",
    RW_ID_REGEX,
    r" ",
    RELIABILITY_REGEX,
    r" ",
    DURABILITY_REGEX,
    r" ",
    RW_REGEX,
    r": ",
    r"(?P<discard>.*) p\(open\) NEW \(as ",
    SUBNET_REGEX,
    r":",
    SUBNET_PORT_REGEX,
    r" ",
    HOSTNAME_REGEX,
    r":",
    HOSTNAME_PORT_REGEX,
    r"\) ",
    READER_QOS_REGEX,
];

/// The pieces of the own-host shape.
pub const OWN_IP_PARTS: [&'static str; 3] = [HEADER_REGEX, r"      main: ownip: ", HOSTNAME_REGEX];

/// The pieces of the writer deletion shape.
pub const WRITER_SEDP_ST3_PARTS: [&'static str; 6] = [
    HEADER_REGEX,
    r"dq.builtin: SEDP ST3 ",
    SYSTEM_ID_REGEX,
    r":",
    RW_ID_REGEX,
    "delete_proxy_writer",
];

/// The pieces of the reader deletion shape.
pub const READER_SEDP_ST3_PARTS: [&'static str; 6] = [
    HEADER_REGEX,
    r"dq.builtin: SEDP ST3 ",
    SYSTEM_ID_REGEX,
    r":",
    RW_ID_REGEX,
    "delete_proxy_reader",
];

/// The number of shapes in the catalog.
pub const CATALOG_LEN: usize = 8;

/// The pieces of a pattern written one after the other.
pub open spec fn concat(parts: Seq<&'static str>) -> Seq<char>
    decreases parts.len(),
{
    if parts.len() == 0 {
        Seq::empty()
    } else {
        concat(parts.drop_last()) + parts.last()@
    }
}

/// The catalog: the pattern of every recognised shape, in priority order.
pub open spec fn catalog() -> Seq<Seq<char>> {
    seq![
        concat(SELF_DISCOVERY_PARTS@),
        concat(WRITER_QOS_PARTS@),
        concat(READER_QOS_PARTS@),
        concat(WRITER_SEDP_ST0_PARTS@),
        concat(READER_SEDP_ST0_PARTS@),
        concat(OWN_IP_PARTS@),
        concat(WRITER_SEDP_ST3_PARTS@),
        concat(READER_SEDP_ST3_PARTS@),
    ]
}

/// Whether the engine accepts the catalog: as a set, and pattern by pattern.
pub open spec fn catalog_compiles() -> bool {
    &&& set_compiles(catalog())
    &&& forall|i: int| 0 <= i < CATALOG_LEN ==> compiles(#[trigger] catalog()[i])
}

/// The fields that the shape at position `index` extracts from `text`; `None`
/// if that shape does not occur in `text` or the catalog has no such position.
pub open spec fn capture_of(index: int, text: Seq<char>) -> Option<Seq<(Seq<char>, Seq<char>)>> {
    if 0 <= index < catalog().len() {
        match group_texts(catalog()[index], text) {
            Some(groups) => Some(all_named_fields(group_names(catalog()[index]), groups)),
            None => None,
        }
    } else {
        None
    }
}

/// The position of the first shape of the catalog that occurs in `text`.
pub open spec fn first_match(text: Seq<char>) -> Option<usize> {
    let hits = matching_patterns(catalog(), text);
    if hits.len() > 0 {
        Some(hits[0])
    } else {
        None
    }
}

/// The shapes of the catalog, in priority order.
pub enum Shape {
    HandleParticipantsSelf,
    WriterQos,
    ReaderQos,
    WriterSedpSt0,
    ReaderSedpSt0,
    OwnIp,
    WriterSedpSt3,
    ReaderSedpSt3,
}

/// The shape at position `index` of the catalog.
pub open spec fn shape_at(index: int) -> Option<Shape> {
    if index == 0 {
        Some(Shape::HandleParticipantsSelf)
    } else if index == 1 {
        Some(Shape::WriterQos)
    } else if index == 2 {
        Some(Shape::ReaderQos)
    } else if index == 3 {
        Some(Shape::WriterSedpSt0)
    } else if index == 4 {
        Some(Shape::ReaderSedpSt0)
    } else if index == 5 {
        Some(Shape::OwnIp)
    } else if index == 6 {
        Some(Shape::WriterSedpSt3)
    } else if index == 7 {
        Some(Shape::ReaderSedpSt3)
    } else {
        None
    }
}

impl Shape {
    /// The position of the shape in the catalog.
    pub open spec fn position(self) -> int {
        match self {
            Shape::HandleParticipantsSelf => 0,
            Shape::WriterQos => 1,
            Shape::ReaderQos => 2,
            Shape::WriterSedpSt0 => 3,
            Shape::ReaderSedpSt0 => 4,
            Shape::OwnIp => 5,
            Shape::WriterSedpSt3 => 6,
            Shape::ReaderSedpSt3 => 7,
        }
    }
}

/// Whether the shape at position `index` of the catalog occurs in `text`.
pub open spec fn occurs(index: int, text: Seq<char>) -> bool {
    exists|i: int|
        0 <= i < matching_patterns(catalog(), text).len() && #[trigger] matching_patterns(
            catalog(),
            text,
        )[i] == index
}

/// What a recognised line says, over plain values: its shape and its named
/// fields, in the order in which the shape declares them.
pub struct LineView {
    pub shape: Shape,
    pub fields: Seq<(Seq<char>, Seq<char>)>,
}

impl LineView {
    /// The text of the field `name`, if the line has it.
    pub open spec fn field(self, name: Seq<char>) -> Option<Seq<char>> {
        lookup(self.fields, name)
    }
}

/// The classification of a line: the first shape of the catalog that occurs
/// in it, with the fields that this shape extracts.
pub open spec fn classify(text: Seq<char>) -> Option<LineView> {
    match first_match(text) {
        None => None,
        Some(index) => match (shape_at(index as int), capture_of(index as int, text)) {
            (Some(shape), Some(fields)) => Some(LineView { shape, fields }),
            _ => None,
        },
    }
}

/// Writes the pieces of a pattern one after the other.
pub fn join(parts: &[&'static str]) -> (r: String)
    ensures
        r@ == concat(parts@),
{
    let mut out = String::new();
    let mut i: usize = 0;
    while i < parts.len()
        invariant
            i <= parts.len(),
            out@ == concat(parts@.take(i as int)),
        decreases parts.len() - i,
    {
        assert(parts@.take(i + 1).drop_last() =~= parts@.take(i as int));
        out.append(parts[i]);
        i += 1;
    }
    assert(parts@.take(i as int) =~= parts@);
    out
}

/// Writes out the catalog: the pattern of every shape, in priority order.
pub fn catalog_patterns() -> (r: Vec<String>)
    ensures
        texts(r@) == catalog(),
{
    let mut patterns: Vec<String> = Vec::new();
    patterns.push(join(&SELF_DISCOVERY_PARTS));
    patterns.push(join(&WRITER_QOS_PARTS));
    patterns.push(join(&READER_QOS_PARTS));
    patterns.push(join(&WRITER_SEDP_ST0_PARTS));
    patterns.push(join(&READER_SEDP_ST0_PARTS));
    patterns.push(join(&OWN_IP_PARTS));
    patterns.push(join(&WRITER_SEDP_ST3_PARTS));
    patterns.push(join(&READER_SEDP_ST3_PARTS));
    assert(texts(patterns@) =~= catalog());
    patterns
}

/// A recognised log line: which shape it had, and the fields of that shape.
#[derive(Debug)]
pub enum DdsiLogType {
    /// The process announces its own system id.
    HandleParticipantsSelf(LogCapture),
    /// A writer is announced with its quality of service.
    WriterQos(LogCapture),
    /// A reader is announced with its quality of service.
    ReaderQos(LogCapture),
    /// A remote writer is discovered.
    WriterSedpSt0(LogCapture),
    /// A remote reader is discovered.
    ReaderSedpSt0(LogCapture),
    /// The process announces the address of its own host.
    OwnIp(LogCapture),
    /// A remote writer is deleted.
    WriterSedpSt3(LogCapture),
    /// A remote reader is deleted.
    ReaderSedpSt3(LogCapture),
}

impl View for DdsiLogType {
    type V = LineView;

    open spec fn view(&self) -> LineView {
        LineView { shape: self.shape(), fields: self.capture()@ }
    }
}

impl DdsiLogType {
    /// The shape of the line.
    pub open spec fn shape(&self) -> Shape {
        match self {
            DdsiLogType::HandleParticipantsSelf(_) => Shape::HandleParticipantsSelf,
            DdsiLogType::WriterQos(_) => Shape::WriterQos,
            DdsiLogType::ReaderQos(_) => Shape::ReaderQos,
            DdsiLogType::WriterSedpSt0(_) => Shape::WriterSedpSt0,
            DdsiLogType::ReaderSedpSt0(_) => Shape::ReaderSedpSt0,
            DdsiLogType::OwnIp(_) => Shape::OwnIp,
            DdsiLogType::WriterSedpSt3(_) => Shape::WriterSedpSt3,
            DdsiLogType::ReaderSedpSt3(_) => Shape::ReaderSedpSt3,
        }
    }

    /// The fields of the line.
    pub open spec fn capture(&self) -> LogCapture {
        match self {
            DdsiLogType::HandleParticipantsSelf(capture) => *capture,
            DdsiLogType::WriterQos(capture) => *capture,
            DdsiLogType::ReaderQos(capture) => *capture,
            DdsiLogType::WriterSedpSt0(capture) => *capture,
            DdsiLogType::ReaderSedpSt0(capture) => *capture,
            DdsiLogType::OwnIp(capture) => *capture,
            DdsiLogType::WriterSedpSt3(capture) => *capture,
            DdsiLogType::ReaderSedpSt3(capture) => *capture,
        }
    }

    /// Whether the line names the participant it is about. An own-host line
    /// names none and needs none.
    pub open spec fn has_system_id(&self) -> bool {
        self is OwnIp || self@.field("system_id"@) is Some
    }

    /// The key under which the line is filed: its system id, or the fixed
    /// word `ownip` for an own-host line.
    pub open spec fn system_id(&self) -> Seq<char> {
        if self is OwnIp {
            "ownip"@
        } else {
            self@.field("system_id"@)->0
        }
    }

    /// The line of the shape at position `index` of the catalog, with the
    /// given fields; `None` where the catalog has no such position.
    pub fn from_index(index: usize, capture: LogCapture) -> (r: Option<DdsiLogType>)
        ensures
            match r {
                Some(line) => shape_at(index as int) == Some(line.shape()) && line.capture()
                    == capture,
                None => shape_at(index as int) is None,
            },
    {
        match index {
            0 => Some(DdsiLogType::HandleParticipantsSelf(capture)),
            1 => Some(DdsiLogType::WriterQos(capture)),
            2 => Some(DdsiLogType::ReaderQos(capture)),
            3 => Some(DdsiLogType::WriterSedpSt0(capture)),
            4 => Some(DdsiLogType::ReaderSedpSt0(capture)),
            5 => Some(DdsiLogType::OwnIp(capture)),
            6 => Some(DdsiLogType::WriterSedpSt3(capture)),
            7 => Some(DdsiLogType::ReaderSedpSt3(capture)),
            _ => None,
        }
    }

    /// The fields of the line.
    pub fn get_capture(&self) -> (r: &LogCapture)
        ensures
            *r == self.capture(),
    {
        match self {
            DdsiLogType::HandleParticipantsSelf(capture) => capture,
            DdsiLogType::WriterQos(capture) => capture,
            DdsiLogType::ReaderQos(capture) => capture,
            DdsiLogType::WriterSedpSt0(capture) => capture,
            DdsiLogType::ReaderSedpSt0(capture) => capture,
            DdsiLogType::OwnIp(capture) => capture,
            DdsiLogType::WriterSedpSt3(capture) => capture,
            DdsiLogType::ReaderSedpSt3(capture) => capture,
        }
    }

    /// The key under which the line is filed.
    pub fn get_system_id(&self) -> (r: String)
        requires
            self.has_system_id(),
        ensures
            r@ == self.system_id(),
    {
        match self {
            DdsiLogType::OwnIp(_) => "ownip".to_owned(),
            _ => match self.get_capture().get("system_id") {
                Some(id) => id.clone(),
                None => String::new(),
            },
        }
    }
}

/// Why the catalog could not be compiled.
#[derive(Debug, Clone, Copy, PartialEq, Eq, Structural)]
pub enum CatalogError {
    /// The engine refused the catalog as a set.
    WholeSet,
    /// The engine refused the pattern at this position.
    Pattern(usize),
}

/// The compiled catalog: a set for finding out which shape a line has, and
/// one regex per shape for extracting the fields.
pub struct DdsiLogRegex {
    regex_set: regex::RegexSet,
    regex: Vec<regex::Regex>,
    names: Vec<Vec<Option<String>>>,
}

impl DdsiLogRegex {
    #[verifier::type_invariant]
    closed spec fn compiled_from_catalog(&self) -> bool {
        &&& regex_set_patterns(self.regex_set) == catalog()
        &&& self.regex@.len() == CATALOG_LEN
        &&& self.names@.len() == CATALOG_LEN
        &&& forall|i: int|
            0 <= i < CATALOG_LEN ==> regex_pattern(#[trigger] self.regex@[i]) == catalog()[i]
        &&& forall|i: int|
            0 <= i < CATALOG_LEN ==> (#[trigger] self.names@[i]).deep_view() == group_names(
                catalog()[i],
            )
    }

    /// The patterns that the set was compiled from.
    pub closed spec fn patterns(&self) -> Seq<Seq<char>> {
        regex_set_patterns(self.regex_set)
    }

    /// Compiles the catalog: first as a set, then every pattern on its own,
    /// in priority order. It succeeds exactly when the engine accepts the set
    /// and each of the patterns; otherwise the error names what the engine
    /// refused first.
    pub fn new() -> (r: Result<DdsiLogRegex, CatalogError>)
        ensures
            r is Ok <==> catalog_compiles(),
            r matches Ok(compiled) ==> compiled.patterns() == catalog(),
            r matches Err(CatalogError::WholeSet) <==> !set_compiles(catalog()),
            r matches Err(CatalogError::Pattern(i)) ==> {
                &&& i < CATALOG_LEN
                &&& set_compiles(catalog())
                &&& !compiles(catalog()[i as int])
                &&& forall|k: int| 0 <= k < i ==> compiles(#[trigger] catalog()[k])
            },
    {
        let patterns = catalog_patterns();
        assert(patterns@.len() == texts(patterns@).len());
        let regex_set = match compile_set(&patterns) {
            Ok(set) => set,
            Err(_) => {
                return Err(CatalogError::WholeSet);
            },
        };
        let mut regex: Vec<regex::Regex> = Vec::new();
        let mut names: Vec<Vec<Option<String>>> = Vec::new();
        let mut i: usize = 0;
        while i < CATALOG_LEN
            invariant
                i <= CATALOG_LEN,
                patterns@.len() == CATALOG_LEN,
                texts(patterns@) == catalog(),
                set_compiles(catalog()),
                forall|k: int| 0 <= k < i ==> compiles(#[trigger] catalog()[k]),
                regex@.len() == i,
                names@.len() == i,
                forall|k: int| 0 <= k < i ==> regex_pattern(#[trigger] regex@[k]) == catalog()[k],
                forall|k: int|
                    0 <= k < i ==> (#[trigger] names@[k]).deep_view() == group_names(catalog()[k]),
            decreases CATALOG_LEN - i,
        {
            match compile(patterns[i].as_str()) {
                Ok(re) => {
                    assert(texts(patterns@)[i as int] == patterns@[i as int]@);
                    names.push(capture_names(&re));
                    regex.push(re);
                },
                Err(_) => {
                    return Err(CatalogError::Pattern(i));
                },
            }
            i += 1;
        }
        Ok(DdsiLogRegex { regex_set, regex, names })
    }

    /// The positions of all the shapes that occur in `text`, as the engine
    /// lists them.
    pub fn matches(&self, text: &str) -> (r: Vec<usize>)
        ensures
            r@ == matching_patterns(catalog(), text@),
            forall|i: int| 0 <= i < r@.len() ==> #[trigger] r@[i] < CATALOG_LEN,
            forall|i: int, j: int| 0 <= i < j < r@.len() ==> #[trigger] r@[i] < #[trigger] r@[j],
            forall|i: int| 0 <= i < r@.len() ==> capture_of(#[trigger] r@[i] as int, text@) is Some,
    {
        proof {
            use_type_invariant(self);
        }
        set_matches(&self.regex_set, text)
    }

    /// The fields that the shape at position `index` extracts from `text`.
    pub fn captures(&self, index: usize, text: &str) -> (r: Option<LogCapture>)
        ensures
            match r {
                Some(capture) => capture_of(index as int, text@) == Some(capture@),
                None => capture_of(index as int, text@) is None,
            },
    {
        proof {
            use_type_invariant(self);
        }
        if index >= CATALOG_LEN {
            return None;
        }
        match captures(&self.regex[index], text) {
            Some(groups) => Some(LogCapture::from_groups(&self.names[index], &groups)),
            None => None,
        }
    }

    /// Classifies a line: the first shape of the catalog that occurs in it
    /// wins, and its fields are extracted. `None` for a line of no known
    /// shape.
    pub fn parse(&self, text: &str) -> (r: Option<DdsiLogType>)
        ensures
            match r {
                Some(line) => classify(text@) == Some(line@),
                None => classify(text@) is None,
            },
            r matches Some(line) ==> occurs(line.shape().position(), text@) && forall|k: int|
                0 <= k < line.shape().position() ==> !occurs(k, text@),
            r is Some <==> first_match(text@) is Some,
    {
        if let Some(match_index) = self.get_match_index(text) {
            match self.captures(match_index, text) {
                Some(capture) => DdsiLogType::from_index(match_index, capture),
                None => None,
            }
        } else {
            None
        }
    }

    /// Whether the line has any of the known shapes.
    pub fn is_match(&self, text: &str) -> (r: bool)
        ensures
            r == (first_match(text@) is Some),
    {
        proof {
            use_type_invariant(self);
        }
        set_is_match(&self.regex_set, text)
    }

    /// The position of the first shape that occurs in the line.
    fn get_match_index(&self, text: &str) -> (r: Option<usize>)
        ensures
            r == first_match(text@),
            r matches Some(index) ==> index < CATALOG_LEN && occurs(index as int, text@)
                && capture_of(index as int, text@) is Some && forall|k: int|
                0 <= k < index ==> !occurs(k, text@),
    {
        let hits = self.matches(text);
        if hits.len() > 0 {
            assert forall|k: int| 0 <= k < hits@[0] implies !occurs(k, text@) by {
                if occurs(k, text@) {
                    let i = choose|i: int| 0 <= i < hits@.len() && #[trigger] hits@[i] == k;
                    assert(hits@[0] <= hits@[i]);
                }
            }
            Some(hits[0])
        } else {
            None
        }
    }
}

} // verus!
