//! What the server offers to its clients: errors, topics and events.

use vstd::prelude::*;
use vstd::string::*;
use crate::menus::VirtualControlElementType;
use crate::source::VirtualControlElementId;
use crate::text::split;
use crate::text::split_text;
use crate::text::texts;

verus! {

/// The response to a request for a session. It carries no data yet.
#[derive(Copy, Clone, Debug, PartialEq, Eq, Structural)]
pub struct SessionResponseData {}

/// Why a request for data or a change of data failed.
#[derive(Copy, Clone, Debug, PartialEq, Eq, Structural)]
pub enum DataError {
    SessionNotFound,
    SessionHasNoActiveController,
    ControllerNotFound,
    OnlyPatchReplaceIsSupported,
    OnlyCustomDataKeyIsSupportedAsPatchPath,
    ControllerUpdateFailed,
}

/// The kind of failure, as a client sees it.
#[derive(Copy, Clone, Debug, PartialEq, Eq, Structural)]
pub enum DataErrorCategory {
    NotFound,
    BadRequest,
    MethodNotAllowed,
    InternalServerError,
}

impl DataError {
    /// The text that describes the error.
    pub open spec fn description_text(self) -> Seq<char> {
        match self {
            DataError::SessionNotFound => "session not found"@,
            DataError::SessionHasNoActiveController => "session doesn't have an active controller"@,
            DataError::ControllerNotFound => "session has controller but controller not found"@,
            DataError::OnlyPatchReplaceIsSupported => "only 'replace' is supported as op"@,
            DataError::OnlyCustomDataKeyIsSupportedAsPatchPath => "only '/customData/{key}' is supported as path"@,
            DataError::ControllerUpdateFailed => "couldn't update controller"@,
        }
    }

    /// The category of the error: what is missing is not found; an operation other than
    /// a replacement is not allowed; a path other than that of a custom data key is a bad
    /// request; a failed update is an error of the server.
    pub open spec fn spec_category(&self) -> DataErrorCategory {
        match *self {
            DataError::SessionNotFound => DataErrorCategory::NotFound,
            DataError::SessionHasNoActiveController => DataErrorCategory::NotFound,
            DataError::ControllerNotFound => DataErrorCategory::NotFound,
            DataError::OnlyPatchReplaceIsSupported => DataErrorCategory::MethodNotAllowed,
            DataError::OnlyCustomDataKeyIsSupportedAsPatchPath => DataErrorCategory::BadRequest,
            DataError::ControllerUpdateFailed => DataErrorCategory::InternalServerError,
        }
    }

    /// Returns the text that describes the error.
    pub fn description(&self) -> (text: &'static str)
        ensures
            text@ == self.description_text(),
    {
        match self {
            DataError::SessionNotFound => "session not found",
            DataError::SessionHasNoActiveController => "session doesn't have an active controller",
            DataError::ControllerNotFound => "session has controller but controller not found",
            DataError::OnlyPatchReplaceIsSupported => "only 'replace' is supported as op",
            DataError::OnlyCustomDataKeyIsSupportedAsPatchPath => {
                "only '/customData/{key}' is supported as path"
            },
            DataError::ControllerUpdateFailed => "couldn't update controller",
        }
    }

    /// Returns the category of the error.
    #[verifier::when_used_as_spec(spec_category)]
    pub fn category(&self) -> (category: DataErrorCategory)
        ensures
            category == self.spec_category(),
    {
        match self {
            DataError::SessionNotFound
            | DataError::SessionHasNoActiveController
            | DataError::ControllerNotFound => DataErrorCategory::NotFound,
            DataError::OnlyPatchReplaceIsSupported => DataErrorCategory::MethodNotAllowed,
            DataError::OnlyCustomDataKeyIsSupportedAsPatchPath => DataErrorCategory::BadRequest,
            DataError::ControllerUpdateFailed => DataErrorCategory::InternalServerError,
        }
    }
}

/// How an event changes the resource at its path.
#[derive(Copy, Clone, Debug, PartialEq, Eq, Structural)]
pub enum EventType {
    /// The body replaces the resource.
    Put,
    /// The body changes a part of the resource.
    Patch,
}

/// A change of a resource, as it is sent to the clients that listen to its topic.
#[derive(Clone, Debug, PartialEq, Eq)]
pub struct Event<T> {
    /// Corresponds to the method of a request for the resource.
    pub event_type: EventType,
    /// The path of the resource.
    pub path: String,
    /// The resource or the change. A resource that does not exist is given as an absent
    /// value.
    pub body: T,
}

impl<T> Event<T> {
    /// Returns an event whose body replaces the resource at `path`.
    pub fn put(path: String, body: T) -> (event: Event<T>)
        ensures
            event.event_type == EventType::Put,
            event.path == path,
            event.body == body,
    {
        Event { event_type: EventType::Put, path, body }
    }

    /// Returns an event whose body changes a part of the resource at `path`.
    pub fn patch(path: String, body: T) -> (event: Event<T>)
        ensures
            event.event_type == EventType::Patch,
            event.path == path,
            event.body == body,
    {
        Event { event_type: EventType::Patch, path, body }
    }
}

/// A value that belongs to a session.
#[derive(Clone, Debug, PartialEq, Eq)]
pub struct WithSessionId<T> {
    pub session_id: String,
    pub value: T,
}

/// The path of the resource of a session.
pub open spec fn session_path(session_id: Seq<char>) -> Seq<char> {
    "/realearn/session/"@ + session_id
}

/// Returns the path of the resource of a session.
pub fn build_session_path(session_id: &str) -> (path: String)
    ensures
        path@ == session_path(session_id@),
{
    String::from_str("/realearn/session/").concat(session_id)
}

/// Returns the event that replaces the controller of a session.
pub fn get_active_controller_updated_event<C>(session_id: &str, controller: Option<C>) -> (event:
    Event<Option<C>>)
    ensures
        event.event_type == EventType::Put,
        event.path@ == session_path(session_id@) + "/controller"@,
        event.body == controller,
{
    Event::put(build_session_path(session_id).concat("/controller"), controller)
}

/// Returns the event that changes the feedback values of a session.
pub fn get_projection_feedback_event<F>(session_id: &str, feedback: F) -> (event: Event<F>)
    ensures
        event.event_type == EventType::Patch,
        event.path@ == session_path(session_id@) + "/feedback"@,
        event.body == feedback,
{
    Event::patch(build_session_path(session_id).concat("/feedback"), feedback)
}

/// Returns the event that replaces the data of a session.
pub fn get_session_updated_event(
    session_id: &str,
    session_data: Option<SessionResponseData>,
) -> (event: Event<Option<SessionResponseData>>)
    ensures
        event.event_type == EventType::Put,
        event.path@ == session_path(session_id@),
        event.body == session_data,
{
    Event::put(build_session_path(session_id), session_data)
}

/// Returns the event that replaces the controller routing of a session.
pub fn get_controller_routing_updated_event<R>(session_id: &str, routing: Option<R>) -> (event:
    Event<Option<R>>)
    ensures
        event.event_type == EventType::Put,
        event.path@ == session_path(session_id@) + "/controller-routing"@,
        event.body == routing,
{
    Event::put(build_session_path(session_id).concat("/controller-routing"), routing)
}

/// What a client can listen to.
#[derive(Copy, Clone, Debug, PartialEq, Eq, Hash, Structural)]
pub enum TopicKind {
    Session,
    ActiveController,
    ControllerRouting,
    Feedback,
}

/// A topic: something of one session that a client can listen to.
#[derive(Clone, Debug, PartialEq, Eq, Hash)]
pub enum Topic {
    Session { session_id: String },
    ActiveController { session_id: String },
    ControllerRouting { session_id: String },
    Feedback { session_id: String },
}

/// A topic as a value: its kind and the id of its session.
pub struct TopicView {
    pub kind: TopicKind,
    pub session_id: Seq<char>,
}

impl View for Topic {
    type V = TopicView;

    open spec fn view(&self) -> TopicView {
        match *self {
            Topic::Session { session_id } => TopicView {
                kind: TopicKind::Session,
                session_id: session_id@,
            },
            Topic::ActiveController { session_id } => TopicView {
                kind: TopicKind::ActiveController,
                session_id: session_id@,
            },
            Topic::ControllerRouting { session_id } => TopicView {
                kind: TopicKind::ControllerRouting,
                session_id: session_id@,
            },
            Topic::Feedback { session_id } => TopicView {
                kind: TopicKind::Feedback,
                session_id: session_id@,
            },
        }
    }
}

/// The topic that a topic expression stands for, if it is one.
///
/// A topic expression consists of parts that are separated by slashes. What stands before
/// the first slash does not count. After it come `realearn`, `session` and the id of the
/// session, and then nothing more for the session itself, or `controller`,
/// `controller-routing` or `feedback`.
pub open spec fn topic_of(topic_expression: Seq<char>) -> Option<TopicView> {
    let parts = split(topic_expression, '/');
    if (parts.len() == 4 || parts.len() == 5) && parts[1] == "realearn"@ && parts[2] == "session"@ {
        if parts.len() == 4 {
            Some(TopicView { kind: TopicKind::Session, session_id: parts[3] })
        } else if parts[4] == "controller-routing"@ {
            Some(TopicView { kind: TopicKind::ControllerRouting, session_id: parts[3] })
        } else if parts[4] == "controller"@ {
            Some(TopicView { kind: TopicKind::ActiveController, session_id: parts[3] })
        } else if parts[4] == "feedback"@ {
            Some(TopicView { kind: TopicKind::Feedback, session_id: parts[3] })
        } else {
            None
        }
    } else {
        None
    }
}

fn is_text(part: &String, text: &str) -> (same: bool)
    ensures
        same == (part@ == text@),
{
    let other = String::from_str(text);
    *part == other
}

impl Topic {
    /// The kind of the topic.
    pub open spec fn spec_kind(&self) -> TopicKind {
        self@.kind
    }

    /// Returns the kind of the topic.
    #[verifier::when_used_as_spec(spec_kind)]
    pub fn kind(&self) -> (kind: TopicKind)
        ensures
            kind == self@.kind,
    {
        match self {
            Topic::Session { .. } => TopicKind::Session,
            Topic::ActiveController { .. } => TopicKind::ActiveController,
            Topic::ControllerRouting { .. } => TopicKind::ControllerRouting,
            Topic::Feedback { .. } => TopicKind::Feedback,
        }
    }

    /// Returns the id of the session of the topic.
    pub fn session_id(&self) -> (session_id: &String)
        ensures
            session_id@ == self@.session_id,
    {
        match self {
            Topic::Session { session_id } => session_id,
            Topic::ActiveController { session_id } => session_id,
            Topic::ControllerRouting { session_id } => session_id,
            Topic::Feedback { session_id } => session_id,
        }
    }

    /// Returns whether two topics are the same.
    pub fn same_as(&self, other: &Topic) -> (same: bool)
        ensures
            same == (self@ == other@),
    {
        let same_kind = match (self.kind(), other.kind()) {
            (TopicKind::Session, TopicKind::Session) => true,
            (TopicKind::ActiveController, TopicKind::ActiveController) => true,
            (TopicKind::ControllerRouting, TopicKind::ControllerRouting) => true,
            (TopicKind::Feedback, TopicKind::Feedback) => true,
            _ => false,
        };
        same_kind && *self.session_id() == *other.session_id()
    }

    /// Reads a topic expression.
    pub fn try_from(topic_expression: &str) -> (topic: Result<Topic, TopicError>)
        ensures
            topic.is_ok() == topic_of(topic_expression@).is_some(),
            topic matches Ok(t) ==> Some(t@) == topic_of(topic_expression@),
            topic matches Err(e) ==> e == TopicError::InvalidTopicExpression,
    {
        let parts = split_text(topic_expression, '/');
        let count = parts.len();
        proof {
            assert forall|k: int| 0 <= k < parts@.len() implies parts@[k]@ == split(
                topic_expression@,
                '/',
            )[k] by {
                assert(texts(parts@)[k] == parts@[k]@);
            }
        }
        if count != 4 && count != 5 {
            return Err(TopicError::InvalidTopicExpression);
        }
        if !is_text(&parts[1], "realearn") || !is_text(&parts[2], "session") {
            return Err(TopicError::InvalidTopicExpression);
        }
        let session_id = parts[3].clone();
        if count == 4 {
            return Ok(Topic::Session { session_id });
        }
        if is_text(&parts[4], "controller-routing") {
            Ok(Topic::ControllerRouting { session_id })
        } else if is_text(&parts[4], "controller") {
            Ok(Topic::ActiveController { session_id })
        } else if is_text(&parts[4], "feedback") {
            Ok(Topic::Feedback { session_id })
        } else {
            Err(TopicError::InvalidTopicExpression)
        }
    }
}

/// Why a text is no topic.
#[derive(Copy, Clone, Debug, PartialEq, Eq, Structural)]
pub enum TopicError {
    InvalidTopicExpression,
}

impl TopicError {
    pub fn description(&self) -> (text: &'static str)
        ensures
            text@ == "invalid topic expression"@,
    {
        "invalid topic expression"
    }
}

/// The topic `topic` is named by one of the first `count` topic expressions.
pub open spec fn is_named(topic: TopicView, expressions: Seq<Seq<char>>, count: int) -> bool {
    exists|i: int| 0 <= i < count && #[trigger] topic_of(expressions[i]) == Some(topic)
}

/// The topic `topic` is among `topics`.
pub open spec fn has_topic(topics: Seq<Topic>, topic: TopicView) -> bool {
    exists|k: int| 0 <= k < topics.len() && (#[trigger] topics[k])@ == topic
}

/// No topic occurs twice.
pub open spec fn distinct_topics(topics: Seq<Topic>) -> bool {
    forall|a: int, b: int|
        0 <= a < b < topics.len() ==> (#[trigger] topics[a])@ != (#[trigger] topics[b])@
}

/// A request of a client that wants to listen to topics.
#[derive(Clone, Debug, PartialEq, Eq)]
pub struct WebSocketRequest {
    /// Topic expressions, separated by commas.
    pub topics: String,
}

impl WebSocketRequest {
    /// Returns the set of topics that the request names, each topic once. What is no topic
    /// expression is passed over.
    pub fn parse_topics(&self) -> (topics: Vec<Topic>)
        ensures
            distinct_topics(topics@),
            forall|topic: TopicView|
                has_topic(topics@, topic) <==> is_named(
                    topic,
                    split(self.topics@, ','),
                    split(self.topics@, ',').len() as int,
                ),
    {
        let expressions = split_text(self.topics.as_str(), ',');
        let ghost named = split(self.topics@, ',');
        let mut topics: Vec<Topic> = Vec::new();
        let mut i: usize = 0;
        proof {
            assert forall|k: int| 0 <= k < expressions@.len() implies expressions@[k]@
                == named[k] by {
                assert(texts(expressions@)[k] == expressions@[k]@);
            }
        }
        while i < expressions.len()
            invariant
                i <= expressions@.len(),
                expressions@.len() == named.len(),
                forall|k: int| 0 <= k < expressions@.len() ==> expressions@[k]@ == named[k],
                distinct_topics(topics@),
                forall|topic: TopicView|
                    has_topic(topics@, topic) <==> is_named(topic, named, i as int),
            decreases expressions@.len() - i,
        {
            let ghost before = topics@;
            match Topic::try_from(expressions[i].as_str()) {
                Ok(topic) => {
                    let mut known = false;
                    let mut k: usize = 0;
                    while k < topics.len()
                        invariant
                            k <= topics@.len(),
                            known <==> exists|j: int| 0 <= j < k && (#[trigger] topics@[j])@ == topic@,
                        decreases topics@.len() - k,
                    {
                        if topics[k].same_as(&topic) {
                            known = true;
                        }
                        k = k + 1;
                    }
                    assert(known == has_topic(topics@, topic@));
                    let ghost view = topic@;
                    if !known {
                        topics.push(topic);
                        proof {
                            assert(topics@[topics@.len() - 1]@ == view);
                            assert forall|a: int, b: int| 0 <= a < b < topics@.len() implies (
                            #[trigger] topics@[a])@ != (#[trigger] topics@[b])@ by {
                                if b == before.len() {
                                    assert(before[a]@ != view);
                                } else {
                                    assert(before[a]@ != before[b]@);
                                }
                            }
                        }
                    }
                    proof {
                        assert(topic_of(named[i as int]) == Some(view));
                        assert forall|other: TopicView|
                            has_topic(topics@, other) <==> is_named(other, named, i + 1) by {
                            if has_topic(topics@, other) {
                                let j = choose|j: int|
                                    0 <= j < topics@.len() && (#[trigger] topics@[j])@ == other;
                                if j < before.len() {
                                    assert(before[j]@ == other);
                                    assert(has_topic(before, other));
                                    assert(is_named(other, named, i as int));
                                } else {
                                    assert(other == view);
                                }
                                assert(is_named(other, named, i + 1));
                            }
                            if is_named(other, named, i + 1) {
                                let j = choose|j: int|
                                    0 <= j < i + 1 && #[trigger] topic_of(named[j]) == Some(other);
                                if j < i {
                                    assert(is_named(other, named, i as int));
                                    assert(has_topic(before, other));
                                    let m = choose|m: int|
                                        0 <= m < before.len() && (#[trigger] before[m])@ == other;
                                    assert(topics@[m]@ == other);
                                } else {
                                    assert(other == view);
                                    if known {
                                        assert(has_topic(before, other));
                                    } else {
                                        assert(topics@[topics@.len() - 1]@ == other);
                                    }
                                }
                                assert(has_topic(topics@, other));
                            }
                        }
                    }
                },
                Err(_) => {
                    proof {
                        assert(topic_of(named[i as int]).is_none());
                        assert forall|other: TopicView|
                            has_topic(topics@, other) <==> is_named(other, named, i + 1) by {
                            if is_named(other, named, i + 1) {
                                let j = choose|j: int|
                                    0 <= j < i + 1 && #[trigger] topic_of(named[j]) == Some(other);
                                assert(j < i);
                                assert(is_named(other, named, i as int));
                            }
                            if has_topic(topics@, other) {
                                assert(is_named(other, named, i as int));
                                let j = choose|j: int|
                                    0 <= j < i && #[trigger] topic_of(named[j]) == Some(other);
                                assert(is_named(other, named, i + 1));
                            }
                        }
                    }
                },
            }
            i = i + 1;
        }
        topics
    }
}

/// A control element of a virtual controller.
#[derive(Debug)]
pub struct VirtualControlElement {
    pub kind: VirtualControlElementType,
    pub id: VirtualControlElementId,
}

/// What the routing reads of a mapping.
#[derive(Debug)]
pub struct RoutedMapping {
    pub key: String,
    pub visible_in_projection: bool,
    /// The mapping is enabled and active.
    pub is_on: bool,
    pub effective_name: String,
    /// The control element that the mapping controls, if its target is virtual.
    pub virtual_target: Option<VirtualControlElement>,
    /// The control element that the mapping listens to, if its source is virtual.
    pub virtual_source: Option<VirtualControlElement>,
}

/// The main preset of a session, reduced to its id and name.
#[derive(Clone, Debug, PartialEq, Eq)]
pub struct LightMainPresetData {
    pub id: String,
    pub name: String,
}

/// What a control element of the controller ends up controlling.
#[derive(Clone, Debug, PartialEq, Eq)]
pub struct TargetDescriptor {
    pub label: String,
}

/// For each control element of the controller that is shown and does something, what it
/// controls: the routes, by the key of the controller mapping, in the order of the
/// controller mappings.
#[derive(Clone, Debug, PartialEq, Eq)]
pub struct ControllerRouting {
    pub main_preset: Option<LightMainPresetData>,
    pub routes: Vec<(String, Vec<TargetDescriptor>)>,
}

/// The two control elements are the same.
pub open spec fn same_element(a: VirtualControlElement, b: VirtualControlElement) -> bool {
    a.kind == b.kind && match (a.id, b.id) {
        (VirtualControlElementId::Indexed(i), VirtualControlElementId::Indexed(j)) => i == j,
        (VirtualControlElementId::Named(n), VirtualControlElementId::Named(m)) => n@ == m@,
        _ => false,
    }
}

/// The main mapping is shown, is on and listens to the control element.
pub open spec fn listens_to(main: RoutedMapping, element: VirtualControlElement) -> bool {
    main.visible_in_projection && main.is_on && match main.virtual_source {
        Some(source) => same_element(source, element),
        None => false,
    }
}

/// The names of the main mappings among the first `count` that listen to the control
/// element, in order.
pub open spec fn labels_for(
    main_mappings: Seq<RoutedMapping>,
    element: VirtualControlElement,
    count: int,
) -> Seq<Seq<char>>
    decreases count,
{
    if count <= 0 {
        Seq::empty()
    } else {
        let rest = labels_for(main_mappings, element, count - 1);
        if listens_to(main_mappings[count - 1], element) {
            rest.push(main_mappings[count - 1].effective_name@)
        } else {
            rest
        }
    }
}

/// What a controller mapping is routed to, if it is shown, is on and is routed to
/// anything: the main mappings that listen to its control element if its target is
/// virtual, otherwise its own target.
pub open spec fn route_of(mapping: RoutedMapping, main_mappings: Seq<RoutedMapping>) -> Option<
    Seq<Seq<char>>,
> {
    if !mapping.visible_in_projection || !mapping.is_on {
        None
    } else {
        match mapping.virtual_target {
            Some(element) => {
                let labels = labels_for(main_mappings, element, main_mappings.len() as int);
                if labels.len() == 0 {
                    None
                } else {
                    Some(labels)
                }
            },
            None => Some(seq![mapping.effective_name@]),
        }
    }
}

/// The routes of the first `count` controller mappings, as pairs of key and labels.
pub open spec fn routes_for(
    controller_mappings: Seq<RoutedMapping>,
    main_mappings: Seq<RoutedMapping>,
    count: int,
) -> Seq<(Seq<char>, Seq<Seq<char>>)>
    decreases count,
{
    if count <= 0 {
        Seq::empty()
    } else {
        let rest = routes_for(controller_mappings, main_mappings, count - 1);
        match route_of(controller_mappings[count - 1], main_mappings) {
            Some(labels) => rest.push((controller_mappings[count - 1].key@, labels)),
            None => rest,
        }
    }
}

/// The labels of target descriptors.
pub open spec fn descriptor_labels(descriptors: Seq<TargetDescriptor>) -> Seq<Seq<char>> {
    descriptors.map_values(|d: TargetDescriptor| d.label@)
}

/// Routes as pairs of key and labels.
pub open spec fn route_views(routes: Seq<(String, Vec<TargetDescriptor>)>) -> Seq<
    (Seq<char>, Seq<Seq<char>>),
> {
    routes.map_values(|r: (String, Vec<TargetDescriptor>)| (r.0@, descriptor_labels(r.1@)))
}

fn is_same_element(a: &VirtualControlElement, b: &VirtualControlElement) -> (same: bool)
    ensures
        same == same_element(*a, *b),
{
    let same_kind = match (a.kind, b.kind) {
        (VirtualControlElementType::Multi, VirtualControlElementType::Multi) => true,
        (VirtualControlElementType::Button, VirtualControlElementType::Button) => true,
        _ => false,
    };
    if !same_kind {
        return false;
    }
    match (&a.id, &b.id) {
        (VirtualControlElementId::Indexed(i), VirtualControlElementId::Indexed(j)) => *i == *j,
        (VirtualControlElementId::Named(n), VirtualControlElementId::Named(m)) => *n == *m,
        _ => false,
    }
}

fn find_matching_main_mappings(
    main_mappings: &Vec<RoutedMapping>,
    element: &VirtualControlElement,
) -> (descriptors: Vec<TargetDescriptor>)
    ensures
        descriptor_labels(descriptors@) == labels_for(
            main_mappings@,
            *element,
            main_mappings@.len() as int,
        ),
{
    let mut descriptors: Vec<TargetDescriptor> = Vec::new();
    let mut i: usize = 0;
    assert(descriptor_labels(descriptors@) =~= labels_for(main_mappings@, *element, 0));
    while i < main_mappings.len()
        invariant
            i <= main_mappings@.len(),
            descriptor_labels(descriptors@) == labels_for(main_mappings@, *element, i as int),
        decreases main_mappings@.len() - i,
    {
        let mp = &main_mappings[i];
        let listens = mp.visible_in_projection && mp.is_on && match &mp.virtual_source {
            Some(source) => is_same_element(source, element),
            None => false,
        };
        if listens {
            let ghost before = descriptors@;
            descriptors.push(TargetDescriptor { label: mp.effective_name.clone() });
            proof {
                assert(descriptor_labels(descriptors@) =~= descriptor_labels(before).push(
                    mp.effective_name@,
                ));
            }
        }
        i = i + 1;
    }
    descriptors
}

/// Returns the routing of a controller: for each of its mappings that is shown and on, what
/// it controls. A mapping with a virtual target controls the main mappings that are shown,
/// are on and listen to its control element, and is left out if there are none. Any
/// other mapping controls its own target.
pub fn get_controller_routing(
    main_preset: Option<LightMainPresetData>,
    controller_mappings: &Vec<RoutedMapping>,
    main_mappings: &Vec<RoutedMapping>,
) -> (routing: ControllerRouting)
    ensures
        routing.main_preset == main_preset,
        route_views(routing.routes@) == routes_for(
            controller_mappings@,
            main_mappings@,
            controller_mappings@.len() as int,
        ),
{
    let mut routes: Vec<(String, Vec<TargetDescriptor>)> = Vec::new();
    let mut i: usize = 0;
    assert(route_views(routes@) =~= routes_for(controller_mappings@, main_mappings@, 0));
    while i < controller_mappings.len()
        invariant
            i <= controller_mappings@.len(),
            route_views(routes@) == routes_for(controller_mappings@, main_mappings@, i as int),
        decreases controller_mappings@.len() - i,
    {
        let m = &controller_mappings[i];
        if m.visible_in_projection && m.is_on {
            let descriptors = match &m.virtual_target {
                Some(control_element) => find_matching_main_mappings(
                    main_mappings,
                    control_element,
                ),
                None => {
                    let mut single: Vec<TargetDescriptor> = Vec::new();
                    single.push(TargetDescriptor { label: m.effective_name.clone() });
                    assert(descriptor_labels(single@) =~= seq![m.effective_name@]);
                    single
                },
            };
            if descriptors.len() > 0 {
                let ghost before = routes@;
                let ghost labels = descriptor_labels(descriptors@);
                routes.push((m.key.clone(), descriptors));
                proof {
                    assert(route_views(routes@) =~= route_views(before).push((m.key@, labels)));
                }
            }
        }
        i = i + 1;
    }
    ControllerRouting { main_preset, routes }
}

} // verus!
