//! The notifier that posts to a chat channel.
use vstd::prelude::*;
use vstd::string::*;
use crate::notifier::notifier::{EmitError, Loggable, Notifier, NotifierLogLevel};
use crate::resource::ext::event::{Event, EventExt, Timestamp};
use crate::resource::ext::node::{Node, NodeExt};
use crate::resource::ext::pod::{Pod, PodExt};
use crate::resource::PackedResource;
use crate::text::{decimal, int_text, listing, render_listing, text_or, text_or_else};

verus! {

/// Notifies by posting messages to one chat channel.
#[derive(Debug, Clone)]
pub struct SlackNotifier {
    /// The token that authenticates each post.
    pub api_token: String,
    /// The channel posted to.
    pub channel_id: String,
    pub log_level: NotifierLogLevel,
    /// The cluster's name, as the messages state it.
    pub cluster_name: String,
}

/// The content of one chat message: a coloured attachment that holds a
/// title, a divider and two groups of text fields.
#[derive(Debug, Clone)]
pub struct SlackMessage {
    pub channel: String,
    pub color: String,
    pub title: String,
    pub primary_fields: Vec<String>,
    pub secondary_fields: Vec<String>,
}

/// A chat message with its severity.
#[derive(Debug, Clone)]
pub struct SlackNotification {
    pub level: NotifierLogLevel,
    pub inner: SlackMessage,
}

/// What a [`SlackNotification`] says.
pub struct SlackContent {
    pub level: NotifierLogLevel,
    pub channel: Seq<char>,
    pub color: Seq<char>,
    pub title: Seq<char>,
    pub primary_fields: Seq<Seq<char>>,
    pub secondary_fields: Seq<Seq<char>>,
}

/// The texts that `fields` hold.
pub open spec fn texts(fields: Seq<String>) -> Seq<Seq<char>> {
    fields.map_values(|field: String| field@)
}

/// What the notifications in `notifications` say.
pub open spec fn contents(notifications: Seq<SlackNotification>) -> Seq<SlackContent> {
    notifications.map_values(|n: SlackNotification| n@)
}

/// The text that `text` holds, if any.
pub open spec fn text_view(text: Option<String>) -> Option<Seq<char>> {
    match text {
        Some(t) => Some(t@),
        None => None,
    }
}

impl View for SlackNotification {
    type V = SlackContent;

    open spec fn view(&self) -> SlackContent {
        SlackContent {
            level: self.level,
            channel: self.inner.channel@,
            color: self.inner.color@,
            title: self.inner.title@,
            primary_fields: texts(self.inner.primary_fields@),
            secondary_fields: texts(self.inner.secondary_fields@),
        }
    }
}

impl Loggable for SlackNotification {
    open spec fn level(&self) -> NotifierLogLevel {
        self.level
    }

    fn log_level(&self) -> (level: NotifierLogLevel) {
        self.level
    }
}

/// The attachment colour that stands for `level`.
pub open spec fn color_of(level: NotifierLogLevel) -> Seq<char> {
    match level {
        NotifierLogLevel::Info => "#3498DB"@,
        NotifierLogLevel::Warn => "#FFC107"@,
        NotifierLogLevel::Error => "#FF0000"@,
    }
}

/// Severity of a node: `Error` where it is marked unschedulable, else `Info`.
pub open spec fn node_level(node: &Node) -> NotifierLogLevel {
    if node.is_unschedulable() {
        NotifierLogLevel::Error
    } else {
        NotifierLogLevel::Info
    }
}

/// Severity of a pod in `phase`.
pub open spec fn phase_level(phase: Seq<char>) -> NotifierLogLevel {
    if phase == "Running"@ || phase == "Succeeded"@ {
        NotifierLogLevel::Info
    } else if phase == "Pending"@ {
        NotifierLogLevel::Warn
    } else {
        NotifierLogLevel::Error
    }
}

/// Severity of an event of type `typ`.
pub open spec fn event_level(typ: Seq<char>) -> NotifierLogLevel {
    if typ == "Normal"@ {
        NotifierLogLevel::Info
    } else {
        NotifierLogLevel::Warn
    }
}

/// Title of a node message.
pub open spec fn node_title(name: Seq<char>, unschedulable: bool, cluster: Seq<char>) -> Seq<
    char,
> {
    "Node `"@ + name + (if unschedulable {
        "` is *unschedulable* in cluster `"@
    } else {
        "` is *healthy* in cluster `"@
    }) + cluster + "`"@
}

/// Title of a pod message.
pub open spec fn pod_title(name: Seq<char>, phase: Seq<char>, cluster: Seq<char>) -> Seq<char> {
    "Pod `"@ + name + "` is in phase *"@ + phase + "* in cluster `"@ + cluster + "`"@
}

/// Title of an event message.
pub open spec fn event_title(count: Option<i32>, kind: Option<String>, name: Option<String>) -> Seq<
    char,
> {
    let times: int = match count {
        Some(n) => n as int,
        None => 0,
    };
    "*"@ + int_text(times) + "* events seen from the "@ + text_or(kind, "<Unknown Resource>"@)
        + " `"@ + text_or(name, "<Unknown Name>"@) + "`"@
}

/// A heading with a value in backticks below it.
pub open spec fn quoted_field(heading: Seq<char>, value: Seq<char>) -> Seq<char> {
    heading + value + "`"@
}

/// `entries`, or none where they are absent.
pub open spec fn entries_or_none(entries: Option<Seq<(String, String)>>) -> Seq<(String, String)> {
    match entries {
        Some(found) => found,
        None => Seq::empty(),
    }
}

/// What is said of a node: always one message.
pub open spec fn node_content(channel: Seq<char>, cluster: Seq<char>, node: &Node) -> SlackContent {
    SlackContent {
        level: node_level(node),
        channel: channel,
        color: color_of(node_level(node)),
        title: node_title(node.metadata.any_name(), node.is_unschedulable(), cluster),
        primary_fields: seq![
            listing("*Conditions*\n"@, entries_or_none(node.reported_conditions())),
            listing("*Addresses*\n"@, entries_or_none(node.reported_addresses())),
        ],
        secondary_fields: seq![listing("*Labels*\n"@, node.metadata.labels@)],
    }
}

/// What is said of a pod that is in `phase`.
pub open spec fn pod_content(channel: Seq<char>, cluster: Seq<char>, pod: &Pod, phase: Seq<char>)
    -> SlackContent {
    SlackContent {
        level: phase_level(phase),
        channel: channel,
        color: color_of(phase_level(phase)),
        title: pod_title(pod.metadata.any_name(), phase, cluster),
        primary_fields: seq![
            quoted_field("*Namespace*\n`"@, text_or(pod.metadata.namespace, "<Unknown>"@)),
            quoted_field("*IP Address*\n`"@, text_or(pod.observed_ip(), "<None>"@)),
        ],
        secondary_fields: seq![listing("*Labels*\n"@, pod.metadata.labels@)],
    }
}

/// What is said of an event of type `typ`, given its two times as texts.
pub open spec fn event_content(
    channel: Seq<char>,
    event: &Event,
    typ: Seq<char>,
    first_seen: Option<Seq<char>>,
    last_seen: Option<Seq<char>>,
) -> SlackContent {
    SlackContent {
        level: event_level(typ),
        channel: channel,
        color: color_of(event_level(typ)),
        title: event_title(event.count, event.involved_object.kind, event.involved_object.name),
        primary_fields: seq![
            quoted_field(
                "*First Seen*\n`"@,
                match first_seen {
                    Some(text) => text,
                    None => "<Unknown>"@,
                },
            ),
            quoted_field(
                "*Last Seen*\n`"@,
                match last_seen {
                    Some(text) => text,
                    None => "<Unknown>"@,
                },
            ),
        ],
        secondary_fields: seq![
            "*Reason*\n"@ + text_or(event.reason, "\"\""@),
            "*Message*\n"@ + text_or(event.message, "\"\""@),
        ],
    }
}

/// The messages derived from a pod: one if it has an observed phase, else none.
pub open spec fn pod_contents(channel: Seq<char>, cluster: Seq<char>, pod: &Pod) -> Seq<
    SlackContent,
> {
    match pod.observed_phase() {
        Some(phase) => seq![pod_content(channel, cluster, pod, phase@)],
        None => Seq::empty(),
    }
}

/// The messages derived from an event: one if it has a type, else none.
pub open spec fn event_contents(
    channel: Seq<char>,
    event: &Event,
    first_seen: Option<Seq<char>>,
    last_seen: Option<Seq<char>>,
) -> Seq<SlackContent> {
    match event.type_ {
        Some(typ) => seq![event_content(channel, event, typ@, first_seen, last_seen)],
        None => Seq::empty(),
    }
}

/// The text chrono gives for the UTC date and time that lies `secs` seconds
/// and `nanos` nanoseconds after 1970-01-01 00:00:00 UTC, or `None` where
/// chrono has no date and time for them.
pub uninterp spec fn utc_timestamp_text(secs: int, nanos: int) -> Option<Seq<char>>;

/// The text for a time that may be absent.
pub open spec fn seen_text(time: Option<Timestamp>) -> Option<Seq<char>> {
    match time {
        Some(t) => utc_timestamp_text(t.secs as int, t.nanos as int),
        None => None,
    }
}

/// Calls chrono's `DateTime::<Utc>::from_timestamp` and renders what it
/// returns with the `Display` of `DateTime<Utc>`. The contract only names
/// the outcome: the text depends on the two numbers alone.
#[verifier::external_body]
fn utc_text(secs: i64, nanos: u32) -> (text: Option<String>)
    ensures
        text_view(text) == utc_timestamp_text(secs as int, nanos as int),
{
    match chrono::DateTime::<chrono::Utc>::from_timestamp(secs, nanos) {
        Some(time) => Some(time.to_string()),
        None => None,
    }
}

/// Renders a time that may be absent; a time that chrono cannot represent
/// renders as absent.
pub fn render_timestamp(time: Option<Timestamp>) -> (text: Option<String>)
    ensures
        text_view(text) == seen_text(time),
{
    match time {
        Some(t) => utc_text(t.secs, t.nanos),
        None => None,
    }
}

/// Tells whether two texts are the same.
pub fn same_text(a: &str, b: &str) -> (same: bool)
    ensures
        same == (a@ == b@),
{
    let left = String::from_str(a);
    let right = String::from_str(b);
    left == right
}

/// The attachment colour for `level`: one of three fixed hex codes.
pub fn get_notification_color(level: NotifierLogLevel) -> (color: &'static str)
    ensures
        color@ == color_of(level),
{
    match level {
        NotifierLogLevel::Info => "#3498DB",
        NotifierLogLevel::Warn => "#FFC107",
        NotifierLogLevel::Error => "#FF0000",
    }
}

fn quoted(heading: &str, value: &str) -> (field: String)
    ensures
        field@ == quoted_field(heading@, value@),
{
    let mut field = String::from_str(heading);
    field.append(value);
    field.append("`");
    field
}

fn plain(heading: &str, value: &str) -> (field: String)
    ensures
        field@ == heading@ + value@,
{
    let mut field = String::from_str(heading);
    field.append(value);
    field
}

fn pair_of(first: String, second: String) -> (fields: Vec<String>)
    ensures
        texts(fields@) == seq![first@, second@],
{
    let mut fields: Vec<String> = Vec::new();
    fields.push(first);
    fields.push(second);
    assert(texts(fields@) =~= seq![first@, second@]);
    fields
}

fn single(only: String) -> (fields: Vec<String>)
    ensures
        texts(fields@) == seq![only@],
{
    let mut fields: Vec<String> = Vec::new();
    fields.push(only);
    assert(texts(fields@) =~= seq![only@]);
    fields
}

impl SlackNotifier {
    /// A chat notifier that posts to `channel_id` with `api_token`, emits
    /// from `log_level` upwards and names the cluster `cluster_name`.
    pub fn new(
        api_token: String,
        channel_id: String,
        log_level: NotifierLogLevel,
        cluster_name: String,
    ) -> (notifier: Self)
        ensures
            notifier.api_token == api_token,
            notifier.channel_id == channel_id,
            notifier.log_level == log_level,
            notifier.cluster_name == cluster_name,
    {
        Self { api_token, channel_id, log_level, cluster_name }
    }

    /// Judges one post by what came back: a response counts as delivered
    /// whatever its status, and only a request that could not be completed
    /// is a failed emission.
    pub fn post_outcome(response: Result<u16, String>) -> (outcome: Result<(), EmitError>)
        ensures
            match response {
                Ok(_) => outcome.is_ok(),
                Err(reason) => outcome == Err::<(), EmitError>(EmitError { reason }),
            },
    {
        match response {
            Ok(_) => Ok(()),
            Err(reason) => Err(EmitError { reason }),
        }
    }

    /// What this notifier says of `resource`, in order.
    pub open spec fn expected(&self, resource: &PackedResource) -> Seq<SlackContent> {
        match resource {
            PackedResource::Node(node) => seq![
                node_content(self.channel_id@, self.cluster_name@, node),
            ],
            PackedResource::Pod(pod) => pod_contents(self.channel_id@, self.cluster_name@, pod),
            PackedResource::Event(event) => event_contents(
                self.channel_id@,
                event,
                seen_text(event.first_timestamp),
                seen_text(event.last_timestamp),
            ),
        }
    }

    /// The one message for a node: `Error` where it is marked
    /// unschedulable, else `Info`.
    pub fn node_notification(&self, node: &Node) -> (notification: SlackNotification)
        ensures
            notification@ == node_content(self.channel_id@, self.cluster_name@, node),
            notification.level == (if node.is_unschedulable() {
                NotifierLogLevel::Error
            } else {
                NotifierLogLevel::Info
            }),
    {
        let labels_section = render_listing("*Labels*\n", node.labels());
        let addresses = match node.addresses() {
            Some(found) => found,
            None => Vec::new(),
        };
        let addresses_section = render_listing("*Addresses*\n", &addresses);
        let conditions = match node.status_conditions() {
            Some(found) => found,
            None => Vec::new(),
        };
        let conditions_section = render_listing("*Conditions*\n", &conditions);
        let unschedulable = node.unschedulable();
        let name = node.name();
        let mut title = String::from_str("Node `");
        title.append(name.as_str());
        let log_level = if unschedulable {
            title.append("` is *unschedulable* in cluster `");
            NotifierLogLevel::Error
        } else {
            title.append("` is *healthy* in cluster `");
            NotifierLogLevel::Info
        };
        title.append(self.cluster_name.as_str());
        title.append("`");
        let color = get_notification_color(log_level);
        let notification = SlackNotification {
            level: log_level,
            inner: SlackMessage {
                channel: self.channel_id.clone(),
                color: String::from_str(color),
                title,
                primary_fields: pair_of(conditions_section, addresses_section),
                secondary_fields: single(labels_section),
            },
        };
        proof {
            assert(addresses@ =~= entries_or_none(node.reported_addresses()));
            assert(conditions@ =~= entries_or_none(node.reported_conditions()));
            assert(notification@.title =~= node_title(
                node.metadata.any_name(),
                node.is_unschedulable(),
                self.cluster_name@,
            ));
        }
        notification
    }

    /// The messages for a pod: none if it has no observed phase, else one,
    /// `Info` in the phases `Running` and `Succeeded`, `Warn` in `Pending`,
    /// `Error` in any other.
    pub fn pod_notifications(&self, pod: &Pod) -> (notifications: Vec<SlackNotification>)
        ensures
            contents(notifications@) == pod_contents(self.channel_id@, self.cluster_name@, pod),
            pod.observed_phase().is_none() <==> notifications@.len() == 0,
            pod.observed_phase().is_some() ==> notifications@.len() == 1
                && notifications@[0].level == phase_level(pod.observed_phase().unwrap()@),
    {
        let mut notifications: Vec<SlackNotification> = Vec::new();
        if let Some(phase) = pod.phase() {
            let labels_section = render_listing("*Labels*\n", pod.labels());
            let name = pod.name();
            let namespace = pod.namespace();
            let namespace_text = text_or_else(&namespace, "<Unknown>");
            let namespace_section = quoted("*Namespace*\n`", namespace_text.as_str());
            let ip_text = match pod.ip_addr() {
                Some(ip) => ip.clone(),
                None => String::from_str("<None>"),
            };
            let ip_section = quoted("*IP Address*\n`", ip_text.as_str());
            let mut title = String::from_str("Pod `");
            title.append(name.as_str());
            title.append("` is in phase *");
            title.append(phase.as_str());
            title.append("* in cluster `");
            title.append(self.cluster_name.as_str());
            title.append("`");
            let log_level = if same_text(phase.as_str(), "Running") || same_text(
                phase.as_str(),
                "Succeeded",
            ) {
                NotifierLogLevel::Info
            } else if same_text(phase.as_str(), "Pending") {
                NotifierLogLevel::Warn
            } else {
                NotifierLogLevel::Error
            };
            let color = get_notification_color(log_level);
            let notification = SlackNotification {
                level: log_level,
                inner: SlackMessage {
                    channel: self.channel_id.clone(),
                    color: String::from_str(color),
                    title,
                    primary_fields: pair_of(namespace_section, ip_section),
                    secondary_fields: single(labels_section),
                },
            };
            proof {
                assert(notification@.title =~= pod_title(
                    pod.metadata.any_name(),
                    phase@,
                    self.cluster_name@,
                ));
                assert(notification@ == pod_content(
                    self.channel_id@,
                    self.cluster_name@,
                    pod,
                    phase@,
                ));
            }
            notifications.push(notification);
            assert(contents(notifications@) =~= seq![notification@]);
        } else {
            assert(contents(notifications@) =~= Seq::<SlackContent>::empty());
        }
        notifications
    }

    /// The messages for an event whose two times were rendered as
    /// `first_seen` and `last_seen`: none if the event has no type, else
    /// one, `Info` for the type `Normal` and `Warn` for any other.
    pub fn event_notifications(
        &self,
        event: &Event,
        first_seen: Option<String>,
        last_seen: Option<String>,
    ) -> (notifications: Vec<SlackNotification>)
        ensures
            contents(notifications@) == event_contents(
                self.channel_id@,
                event,
                text_view(first_seen),
                text_view(last_seen),
            ),
            event.type_.is_none() <==> notifications@.len() == 0,
            event.type_.is_some() ==> notifications@.len() == 1 && notifications@[0].level
                == event_level(event.type_.unwrap()@),
    {
        let mut notifications: Vec<SlackNotification> = Vec::new();
        if let Some(typ) = event.typ() {
            let log_level = if same_text(typ.as_str(), "Normal") {
                NotifierLogLevel::Info
            } else {
                NotifierLogLevel::Warn
            };
            let color = get_notification_color(log_level);
            let count = match event.count() {
                Some(n) => n,
                None => 0,
            };
            let kind = match event.involved_object_kind() {
                Some(kind) => kind.clone(),
                None => String::from_str("<Unknown Resource>"),
            };
            let name = match event.involved_object_name() {
                Some(name) => name.clone(),
                None => String::from_str("<Unknown Name>"),
            };
            let mut title = String::from_str("*");
            title.append(decimal(count).as_str());
            title.append("* events seen from the ");
            title.append(kind.as_str());
            title.append(" `");
            title.append(name.as_str());
            title.append("`");
            let first_text = text_or_else(&first_seen, "<Unknown>");
            let first_seen_section = quoted("*First Seen*\n`", first_text.as_str());
            let last_text = text_or_else(&last_seen, "<Unknown>");
            let last_seen_section = quoted("*Last Seen*\n`", last_text.as_str());
            let message_text = match event.message() {
                Some(message) => message.clone(),
                None => String::from_str("\"\""),
            };
            let message_section = plain("*Message*\n", message_text.as_str());
            let reason_text = match event.reason() {
                Some(reason) => reason.clone(),
                None => String::from_str("\"\""),
            };
            let reason_section = plain("*Reason*\n", reason_text.as_str());
            let notification = SlackNotification {
                level: log_level,
                inner: SlackMessage {
                    channel: self.channel_id.clone(),
                    color: String::from_str(color),
                    title,
                    primary_fields: pair_of(first_seen_section, last_seen_section),
                    secondary_fields: pair_of(reason_section, message_section),
                },
            };
            proof {
                assert(notification@.title =~= event_title(
                    event.count,
                    event.involved_object.kind,
                    event.involved_object.name,
                ));
                let content = event_content(
                    self.channel_id@,
                    event,
                    typ@,
                    text_view(first_seen),
                    text_view(last_seen),
                );
                assert(notification@.primary_fields =~= content.primary_fields);
                assert(notification@.secondary_fields =~= content.secondary_fields);
                assert(notification@ == content);
            }
            notifications.push(notification);
            assert(contents(notifications@) =~= seq![notification@]);
        } else {
            assert(contents(notifications@) =~= Seq::<SlackContent>::empty());
        }
        notifications
    }
}

impl Notifier for SlackNotifier {
    type Notification = SlackNotification;

    open spec fn threshold(&self) -> NotifierLogLevel {
        self.log_level
    }

    /// The notifications say, in order, what this notifier says of the
    /// snapshot.
    open spec fn derives(&self, resource: &PackedResource, derived: Seq<SlackNotification>) -> bool {
        contents(derived) == self.expected(resource)
    }

    fn create_notifications(&self, resource: &PackedResource) -> (derived: Vec<SlackNotification>) {
        match resource {
            PackedResource::Node(node) => {
                let mut notifications: Vec<SlackNotification> = Vec::new();
                let notification = self.node_notification(node);
                notifications.push(notification);
                assert(contents(notifications@) =~= seq![notification@]);
                notifications
            },
            PackedResource::Pod(pod) => self.pod_notifications(pod),
            PackedResource::Event(event) => {
                let first_seen = render_timestamp(event.first_timestamp());
                let last_seen = render_timestamp(event.last_timestamp());
                self.event_notifications(event, first_seen, last_seen)
            },
        }
    }

    fn log_level(&self) -> (level: NotifierLogLevel) {
        self.log_level
    }
}

/// A node yields exactly one message: of severity `Error` where it is
/// marked unschedulable, of severity `Info` where the mark is absent or
/// false.
pub proof fn lemma_node_yields_one(notifier: &SlackNotifier, node: Node)
    ensures
        notifier.expected(&PackedResource::Node(node)).len() == 1,
        notifier.expected(&PackedResource::Node(node))[0].level == (if node.spec.is_some()
            && node.spec.unwrap().unschedulable == Some(true) {
            NotifierLogLevel::Error
        } else {
            NotifierLogLevel::Info
        }),
{
}

/// A pod without an observed phase yields no message. One with a phase
/// yields exactly one: `Info` in the phases `Running` and `Succeeded`,
/// `Warn` in `Pending`, `Error` in any other.
pub proof fn lemma_pod_yields_by_phase(notifier: &SlackNotifier, pod: Pod)
    ensures
        pod.observed_phase().is_none() ==> notifier.expected(&PackedResource::Pod(pod)).len() == 0,
        pod.observed_phase().is_some() ==> {
            let phase = pod.observed_phase().unwrap()@;
            let said = notifier.expected(&PackedResource::Pod(pod));
            &&& said.len() == 1
            &&& (phase == "Running"@ || phase == "Succeeded"@) ==> said[0].level
                == NotifierLogLevel::Info
            &&& phase == "Pending"@ ==> said[0].level == NotifierLogLevel::Warn
            &&& (phase != "Running"@ && phase != "Succeeded"@ && phase != "Pending"@)
                ==> said[0].level == NotifierLogLevel::Error
        },
{
    reveal_strlit("Running");
    reveal_strlit("Succeeded");
    reveal_strlit("Pending");
    assert("Pending"@[0] != "Running"@[0]);
    assert("Pending"@.len() != "Succeeded"@.len());
}

/// An event without a type yields no message. One with a type yields
/// exactly one: `Info` for the type `Normal`, `Warn` for any other.
pub proof fn lemma_event_yields_by_type(notifier: &SlackNotifier, event: Event)
    ensures
        event.type_.is_none() ==> notifier.expected(&PackedResource::Event(event)).len() == 0,
        event.type_.is_some() ==> {
            let said = notifier.expected(&PackedResource::Event(event));
            &&& said.len() == 1
            &&& event.type_.unwrap()@ == "Normal"@ ==> said[0].level == NotifierLogLevel::Info
            &&& event.type_.unwrap()@ != "Normal"@ ==> said[0].level == NotifierLogLevel::Warn
        },
{
}

} // verus!
