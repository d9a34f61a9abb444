//! Alerts that are ready to be shown, the rendering of their texts, and the
//! bookkeeping that keeps at most one notification alive for each group.

use crate::cfg::{Alert, AlertSeverity, AlertView};
use crate::text::{
    decimal, find_char, find_char_at, lemma_find_char, parse_u64, parsed_unsigned, push_decimal,
    string_from_range, to_chars, trim, trimmed,
};
use vstd::hash_map::StringHashMap;
use vstd::prelude::*;

verus! {

/// The values that the placeholders of a template stand for, by name.
pub struct Variables {
    map: StringHashMap<String>,
}

impl View for Variables {
    type V = Map<Seq<char>, Seq<char>>;

    closed spec fn view(&self) -> Map<Seq<char>, Seq<char>> {
        self.map@.map_values(|v: String| v@)
    }
}

impl DeepView for Variables {
    type V = Map<Seq<char>, Seq<char>>;

    open spec fn deep_view(&self) -> Map<Seq<char>, Seq<char>> {
        self@
    }
}

impl Variables {
    /// No variables.
    pub fn new() -> (r: Self)
        ensures
            r@ == Map::<Seq<char>, Seq<char>>::empty(),
    {
        let r = Variables { map: StringHashMap::new() };
        assert(r@ =~= Map::<Seq<char>, Seq<char>>::empty());
        r
    }

    /// Gives `key` the value `value`, in place of the value it had.
    pub fn insert(&mut self, key: String, value: String)
        ensures
            final(self)@ == old(self)@.insert(key@, value@),
    {
        self.map.insert(key, value);
        assert(self@ =~= old(self)@.insert(key@, value@));
    }

    /// The value of `key`, if it has one.
    pub fn get(&self, key: &str) -> (r: Option<&String>)
        ensures
            match r {
                Some(v) => self@.contains_key(key@) && v@ == self@[key@],
                None => !self@.contains_key(key@),
            },
    {
        self.map.get(key)
    }

    /// How many variables there are.
    pub fn len(&self) -> (r: usize)
        ensures
            r == self@.len(),
    {
        broadcast use vstd::hash_map::group_hash_map_axioms;

        assert(self@.dom() =~= self.map@.dom());
        self.map.len()
    }
}

/// Whether a placeholder with a known name starts at index `i` of the
/// template `t`: a dollar sign, an opening brace, the name, and the first
/// closing brace that follows.
pub open spec fn placeholder_at(t: Seq<char>, vars: Map<Seq<char>, Seq<char>>, i: int) -> bool {
    &&& 0 <= i && i + 1 < t.len()
    &&& t[i] == '$' && t[i + 1] == '{'
    &&& find_char(t, '}', i + 2) < t.len()
    &&& vars.contains_key(t.subrange(i + 2, find_char(t, '}', i + 2)))
}

/// The template `t` from index `i` on, with the value of each known variable
/// in place of its placeholder. A placeholder with an unknown name stays as
/// it is written.
pub open spec fn rendered_from(t: Seq<char>, vars: Map<Seq<char>, Seq<char>>, i: int) -> Seq<char>
    decreases t.len() - i,
{
    if i < 0 || i >= t.len() {
        Seq::empty()
    } else if placeholder_at(t, vars, i) {
        let end = find_char(t, '}', i + 2);
        proof {
            lemma_find_char(t, '}', i + 2);
        }
        vars[t.subrange(i + 2, end)] + rendered_from(t, vars, end + 1)
    } else {
        seq![t[i]] + rendered_from(t, vars, i + 1)
    }
}

/// The template `t` with the value of each known variable in place of its
/// placeholder `${name}`.
pub open spec fn rendered(t: Seq<char>, vars: Map<Seq<char>, Seq<char>>) -> Seq<char> {
    rendered_from(t, vars, 0)
}

/// A template in which no placeholder with a known name starts at or after
/// index `i` is rendered from there as it is written.
pub proof fn lemma_rendered_verbatim(t: Seq<char>, vars: Map<Seq<char>, Seq<char>>, i: int)
    requires
        0 <= i <= t.len(),
        forall|k: int| i <= k < t.len() ==> !placeholder_at(t, vars, k),
    ensures
        rendered_from(t, vars, i) == t.subrange(i, t.len() as int),
    decreases t.len() - i,
{
    if i < t.len() {
        lemma_rendered_verbatim(t, vars, i + 1);
        assert(seq![t[i]] + t.subrange(i + 1, t.len() as int) =~= t.subrange(i, t.len() as int));
    } else {
        assert(t.subrange(i, t.len() as int) =~= Seq::<char>::empty());
    }
}

/// Without variables every template is rendered as it is written.
pub proof fn lemma_rendered_without_variables(t: Seq<char>)
    ensures
        rendered(t, Map::<Seq<char>, Seq<char>>::empty()) == t,
{
    lemma_rendered_verbatim(t, Map::<Seq<char>, Seq<char>>::empty(), 0);
    assert(t.subrange(0, t.len() as int) =~= t);
}

/// The placeholder of a variable whose name holds no closing brace is
/// rendered as the variable's value.
pub proof fn lemma_rendered_placeholder(key: Seq<char>, vars: Map<Seq<char>, Seq<char>>)
    requires
        vars.contains_key(key),
        !key.contains('}'),
    ensures
        rendered(seq!['$', '{'] + key + seq!['}'], vars) == vars[key],
{
    let t = seq!['$', '{'] + key + seq!['}'];
    let end = 2 + key.len() as int;
    lemma_find_char(t, '}', 2);
    assert(t[end] == '}');
    assert forall|k: int| 2 <= k < end implies t[k] != '}' by {
        assert(t[k] == key[k - 2]);
        assert(key.contains(key[k - 2]));
    }
    assert(find_char(t, '}', 2) == end) by {
        let found = find_char(t, '}', 2);
        if found < end {
            assert(t[found] == '}');
        }
        if found > end {
            assert(t[end] != '}');
        }
    }
    assert(t.subrange(2, end) =~= key);
    assert(placeholder_at(t, vars, 0));
    assert(rendered_from(t, vars, end + 1) =~= Seq::<char>::empty());
    assert(vars[key] + Seq::<char>::empty() =~= vars[key]);
}

/// Renders a template: every `${name}` whose name is a variable gives way to
/// the variable's value, read from left to right; all else stays.
pub fn render_text(template: &str, variables: &Variables) -> (r: String)
    ensures
        r@ == rendered(template@, variables@),
{
    let t = to_chars(template);
    let mut out = String::new();
    let mut i: usize = 0;
    while i < t.len()
        invariant
            i <= t.len(),
            t@ == template@,
            out@ + rendered_from(t@, variables@, i as int) == rendered(t@, variables@),
        decreases t.len() - i,
    {
        if t[i] == '$' && i + 1 < t.len() && t[i + 1] == '{' {
            let end = find_char_at(&t, '}', i + 2);
            if end < t.len() {
                let key = string_from_range(&t, i + 2, end);
                match variables.get(key.as_str()) {
                    Some(value) => {
                        let ghost before = out@;
                        out.append(value.as_str());
                        assert(before + (value@ + rendered_from(t@, variables@, end + 1)) =~= out@
                            + rendered_from(t@, variables@, end + 1));
                        i = end + 1;
                        continue ;
                    },
                    None => {},
                }
            }
        }
        let ghost before = out@;
        out.push(t[i]);
        assert(before + (seq![t@[i as int]] + rendered_from(t@, variables@, i + 1)) =~= out@
            + rendered_from(t@, variables@, i + 1));
        i += 1;
    }
    assert(out@ + Seq::<char>::empty() =~= out@);
    out
}

/// An alert with the group that it belongs to and the values of its
/// variables. Of each group one notification at most is shown at a time.
pub struct PreparedAlert {
    pub alert: Alert,
    pub group: String,
    pub variables: Variables,
}

/// A `PreparedAlert` with its texts as sequences of characters.
pub struct PreparedAlertView {
    pub alert: AlertView,
    pub group: Seq<char>,
    pub variables: Map<Seq<char>, Seq<char>>,
}

impl DeepView for PreparedAlert {
    type V = PreparedAlertView;

    open spec fn deep_view(&self) -> PreparedAlertView {
        PreparedAlertView {
            alert: self.alert.deep_view(),
            group: self.group@,
            variables: self.variables@,
        }
    }
}

impl Alert {
    /// This alert, ready to be shown for `group` with `variables`.
    pub fn prepare(&self, group: String, variables: Variables) -> (r: PreparedAlert)
        ensures
            r.deep_view() == (PreparedAlertView {
                alert: self.deep_view(),
                group: group@,
                variables: variables@,
            }),
    {
        PreparedAlert { alert: self.clone(), group, variables }
    }
}

impl PreparedAlertView {
    /// The summary with the variables filled in.
    pub open spec fn summary(self) -> Seq<char> {
        rendered(self.alert.summary, self.variables)
    }

    /// The message, where there is one, with the variables filled in.
    pub open spec fn message(self) -> Option<Seq<char>> {
        match self.alert.message {
            Some(m) => Some(rendered(m, self.variables)),
            None => None,
        }
    }
}

impl PreparedAlert {
    /// The summary and the message, where there is one, with the variables
    /// filled in.
    pub fn render(&self) -> (r: (String, Option<String>))
        ensures
            r.0@ == self.deep_view().summary(),
            r.1.deep_view() == self.deep_view().message(),
    {
        let summary = render_text(self.alert.summary.as_str(), &self.variables);
        let message = match &self.alert.message {
            Some(m) => Some(render_text(m.as_str(), &self.variables)),
            None => None,
        };
        (summary, message)
    }
}


/// How urgent the notification surface is to take a notification.
#[derive(Clone, Copy, Debug, PartialEq, Eq, Structural)]
pub enum NotifyUrgency {
    Low,
    Normal,
    Critical,
}

impl NotifyUrgency {
    /// The urgency that stands for a severity.
    pub open spec fn of(severity: AlertSeverity) -> NotifyUrgency {
        match severity {
            AlertSeverity::Info => NotifyUrgency::Low,
            AlertSeverity::Warning => NotifyUrgency::Normal,
            AlertSeverity::Critical => NotifyUrgency::Critical,
        }
    }

    /// The word by which the notification surface knows this urgency.
    pub open spec fn text(self) -> Seq<char> {
        match self {
            NotifyUrgency::Low => "low"@,
            NotifyUrgency::Normal => "normal"@,
            NotifyUrgency::Critical => "critical"@,
        }
    }

    /// The urgency that stands for a severity.
    pub fn from_severity(severity: AlertSeverity) -> (r: Self)
        ensures
            r == Self::of(severity),
    {
        match severity {
            AlertSeverity::Info => NotifyUrgency::Low,
            AlertSeverity::Warning => NotifyUrgency::Normal,
            AlertSeverity::Critical => NotifyUrgency::Critical,
        }
    }

    /// The word by which the notification surface knows this urgency.
    pub fn as_str(self) -> (r: &'static str)
        ensures
            r@ == self.text(),
    {
        match self {
            Self::Low => "low",
            Self::Normal => "normal",
            Self::Critical => "critical",
        }
    }
}

/// What the notification surface is asked to show.
#[derive(Debug)]
pub struct NotifyRequest {
    pub summary: String,
    pub message: Option<String>,
    pub urgency: NotifyUrgency,
    /// After how many milliseconds the notification goes away by itself.
    pub expire_ms: Option<u128>,
    /// The handle of the notification that this one takes the place of.
    pub replace_id: Option<u64>,
}

/// A `NotifyRequest` with its texts as sequences of characters.
pub struct NotifyRequestView {
    pub summary: Seq<char>,
    pub message: Option<Seq<char>>,
    pub urgency: NotifyUrgency,
    pub expire_ms: Option<nat>,
    pub replace_id: Option<u64>,
}

impl DeepView for NotifyRequest {
    type V = NotifyRequestView;

    open spec fn deep_view(&self) -> NotifyRequestView {
        NotifyRequestView {
            summary: self.summary@,
            message: self.message.deep_view(),
            urgency: self.urgency,
            expire_ms: match self.expire_ms {
                Some(ms) => Some(ms as nat),
                None => None,
            },
            replace_id: self.replace_id,
        }
    }
}

impl NotifyRequestView {
    /// The arguments with which the program `notify-send` is run for this
    /// request. It is asked to print the handle of what it shows.
    pub open spec fn command_args(self) -> Seq<Seq<char>> {
        seq!["--print-id"@, "--app-name"@, "Panorama"@, "--urgency"@, self.urgency.text()] + (
        match self.expire_ms {
            Some(ms) => seq!["--expire-time="@ + decimal(ms)],
            None => Seq::empty(),
        }) + (match self.replace_id {
            Some(id) => seq!["--replace-id="@ + decimal(id as nat)],
            None => Seq::empty(),
        }) + seq![self.summary] + (match self.message {
            Some(m) => seq![m],
            None => Seq::empty(),
        })
    }
}

impl NotifyRequest {
    /// The arguments with which the program `notify-send` is run for this
    /// request.
    pub fn command_args(&self) -> (r: Vec<String>)
        ensures
            r.deep_view() == self.deep_view().command_args(),
    {
        let mut r: Vec<String> = Vec::new();
        r.push("--print-id".to_owned());
        r.push("--app-name".to_owned());
        r.push("Panorama".to_owned());
        r.push("--urgency".to_owned());
        r.push(self.urgency.as_str().to_owned());
        let ghost head = seq![
            "--print-id"@,
            "--app-name"@,
            "Panorama"@,
            "--urgency"@,
            self.urgency.text(),
        ];
        assert(r.deep_view() =~= head);
        let ghost expire = match self.expire_ms {
            Some(ms) => seq!["--expire-time="@ + decimal(ms as nat)],
            None => Seq::empty(),
        };
        if let Some(ms) = self.expire_ms {
            let mut arg = "--expire-time=".to_owned();
            push_decimal(&mut arg, ms);
            r.push(arg);
        }
        assert(r.deep_view() =~= head + expire);
        let ghost replace = match self.replace_id {
            Some(id) => seq!["--replace-id="@ + decimal(id as nat)],
            None => Seq::empty(),
        };
        if let Some(id) = self.replace_id {
            let mut arg = "--replace-id=".to_owned();
            push_decimal(&mut arg, id as u128);
            r.push(arg);
        }
        assert(r.deep_view() =~= head + expire + replace);
        r.push(self.summary.clone());
        assert(r.deep_view() =~= head + expire + replace + seq![self.summary@]);
        let ghost message = match self.deep_view().message {
            Some(m) => seq![m],
            None => Seq::empty(),
        };
        if let Some(m) = &self.message {
            r.push(m.clone());
        }
        assert(r.deep_view() =~= head + expire + replace + seq![self.summary@] + message);
        r
    }
}

/// What came of running the notification program.
#[derive(Debug)]
pub enum SinkReply {
    /// The program could not be run.
    NotRun,
    /// The program ran and ended, with what it printed.
    Exited { success: bool, stdout: String, stderr: String },
}

/// A `SinkReply` with its texts as sequences of characters.
pub enum SinkReplyView {
    NotRun,
    Exited { success: bool, stdout: Seq<char>, stderr: Seq<char> },
}

impl DeepView for SinkReply {
    type V = SinkReplyView;

    open spec fn deep_view(&self) -> SinkReplyView {
        match self {
            SinkReply::NotRun => SinkReplyView::NotRun,
            SinkReply::Exited { success, stdout, stderr } => SinkReplyView::Exited {
                success: *success,
                stdout: stdout@,
                stderr: stderr@,
            },
        }
    }
}

/// Why a notification was not delivered.
#[derive(Debug)]
pub enum NotifyError {
    /// The notification program could not be run.
    NotRun,
    /// The notification program ended with a failure.
    Failed { stdout: String, stderr: String },
    /// The notification program printed no handle that could be read.
    UnparsableId { stdout: String },
}

/// A `NotifyError` with its texts as sequences of characters.
pub enum NotifyErrorView {
    NotRun,
    Failed { stdout: Seq<char>, stderr: Seq<char> },
    UnparsableId { stdout: Seq<char> },
}

impl DeepView for NotifyError {
    type V = NotifyErrorView;

    open spec fn deep_view(&self) -> NotifyErrorView {
        match self {
            NotifyError::NotRun => NotifyErrorView::NotRun,
            NotifyError::Failed { stdout, stderr } => NotifyErrorView::Failed {
                stdout: stdout@,
                stderr: stderr@,
            },
            NotifyError::UnparsableId { stdout } => NotifyErrorView::UnparsableId {
                stdout: stdout@,
            },
        }
    }
}

impl NotifyErrorView {
    /// The sentence that tells a user what went wrong.
    pub open spec fn text(self) -> Seq<char> {
        match self {
            NotifyErrorView::NotRun => "could not execute 'notify-send'"@,
            NotifyErrorView::Failed { stdout, stderr } => {
                "'notify-send' exited with non-zero status: "@ + stdout + " "@ + stderr
            },
            NotifyErrorView::UnparsableId { stdout } => "could not parse notification ID"@,
        }
    }
}

impl NotifyError {
    /// The sentence that tells a user what went wrong.
    pub fn message(&self) -> (r: String)
        ensures
            r@ == self.deep_view().text(),
    {
        match self {
            NotifyError::NotRun => "could not execute 'notify-send'".to_owned(),
            NotifyError::Failed { stdout, stderr } => {
                let mut r = "'notify-send' exited with non-zero status: ".to_owned();
                r.append(stdout.as_str());
                r.append(" ");
                r.append(stderr.as_str());
                r
            },
            NotifyError::UnparsableId { stdout } => "could not parse notification ID".to_owned(),
        }
    }
}

impl SinkReplyView {
    /// The handle that the reply gives: the number that the program printed,
    /// white space around it aside, where it ran and ended well.
    pub open spec fn handle(self) -> Result<u64, NotifyErrorView> {
        match self {
            SinkReplyView::NotRun => Err(NotifyErrorView::NotRun),
            SinkReplyView::Exited { success, stdout, stderr } => {
                if !success {
                    Err(NotifyErrorView::Failed { stdout, stderr })
                } else {
                    match parsed_unsigned(trimmed(stdout), u64::MAX as nat) {
                        Some(id) => Ok(id as u64),
                        None => Err(NotifyErrorView::UnparsableId { stdout }),
                    }
                }
            },
        }
    }
}

impl SinkReply {
    /// The handle that the reply gives, or why it gives none.
    pub fn handle(&self) -> (r: Result<u64, NotifyError>)
        ensures
            match r {
                Ok(id) => self.deep_view().handle() == Ok::<u64, NotifyErrorView>(id),
                Err(e) => self.deep_view().handle() == Err::<u64, NotifyErrorView>(e.deep_view()),
            },
    {
        match self {
            SinkReply::NotRun => Err(NotifyError::NotRun),
            SinkReply::Exited { success, stdout, stderr } => {
                if !*success {
                    Err(NotifyError::Failed { stdout: stdout.clone(), stderr: stderr.clone() })
                } else {
                    let id_text = trim(stdout.as_str());
                    match parse_u64(id_text.as_str()) {
                        Some(id) => Ok(id),
                        None => Err(NotifyError::UnparsableId { stdout: stdout.clone() }),
                    }
                }
            },
        }
    }
}

/// The request that shows `alert` while `handles` are the notifications
/// alive, by group: texts rendered, the urgency of the severity, the expiry
/// in milliseconds, and the handle of the group's live notification as the
/// one to replace.
pub open spec fn request_for(handles: Map<Seq<char>, u64>, alert: PreparedAlertView)
    -> NotifyRequestView {
    NotifyRequestView {
        summary: alert.summary(),
        message: alert.message(),
        urgency: NotifyUrgency::of(alert.alert.severity),
        expire_ms: match alert.alert.expire_after_seconds {
            Some(seconds) => Some((seconds * 1000) as nat),
            None => None,
        },
        replace_id: if handles.contains_key(alert.group) {
            Some(handles[alert.group])
        } else {
            None
        },
    }
}

/// The live notifications after `reply` came for a request of `group`: a
/// handle that it gives takes the group's place, and a failure changes
/// nothing.
pub open spec fn handles_after(handles: Map<Seq<char>, u64>, group: Seq<char>, reply: SinkReplyView)
    -> Map<Seq<char>, u64> {
    match reply.handle() {
        Ok(id) => handles.insert(group, id),
        Err(_) => handles,
    }
}

/// The handle of the live notification of each group. One owner holds it and
/// takes the alerts one after another.
pub struct NotifierState {
    category_ids: StringHashMap<u64>,
}

impl View for NotifierState {
    type V = Map<Seq<char>, u64>;

    closed spec fn view(&self) -> Map<Seq<char>, u64> {
        self.category_ids@
    }
}

impl NotifierState {
    /// No notification is alive.
    pub fn new() -> (r: Self)
        ensures
            r@ == Map::<Seq<char>, u64>::empty(),
    {
        NotifierState { category_ids: StringHashMap::new() }
    }

    /// The handle of the live notification of `group`, if there is one.
    pub fn handle_of(&self, group: &str) -> (r: Option<u64>)
        ensures
            r == (if self@.contains_key(group@) {
                Some(self@[group@])
            } else {
                None
            }),
    {
        match self.category_ids.get(group) {
            Some(id) => Some(*id),
            None => None,
        }
    }

    /// The request that shows `alert`. It replaces the live notification of
    /// the alert's group, where there is one.
    pub fn request(&self, alert: &PreparedAlert) -> (r: NotifyRequest)
        ensures
            r.deep_view() == request_for(self@, alert.deep_view()),
    {
        let (summary, message) = alert.render();
        let expire_ms: Option<u128> = match alert.alert.expire_after_seconds {
            Some(seconds) => Some(seconds as u128 * 1000),
            None => None,
        };
        NotifyRequest {
            summary,
            message,
            urgency: NotifyUrgency::from_severity(alert.alert.severity),
            expire_ms,
            replace_id: self.handle_of(alert.group.as_str()),
        }
    }

    /// Takes the reply to a request of `group`: a handle that it gives is
    /// recorded for the group and returned; a failure is returned and
    /// leaves the record as it was.
    pub fn complete(&mut self, group: &str, reply: &SinkReply) -> (r: Result<u64, NotifyError>)
        ensures
            final(self)@ == handles_after(old(self)@, group@, reply.deep_view()),
            match r {
                Ok(id) => reply.deep_view().handle() == Ok::<u64, NotifyErrorView>(id),
                Err(e) => reply.deep_view().handle() == Err::<u64, NotifyErrorView>(
                    e.deep_view(),
                ),
            },
    {
        match reply.handle() {
            Ok(id) => {
                self.category_ids.insert(group.to_owned(), id);
                Ok(id)
            },
            Err(e) => Err(e),
        }
    }
}

/// Of two alerts of one group that are sent one after the other, the second
/// replaces the notification whose handle the reply to the first gave.
pub proof fn lemma_same_group_replaces(
    handles: Map<Seq<char>, u64>,
    first: PreparedAlertView,
    second: PreparedAlertView,
    reply: SinkReplyView,
)
    requires
        first.group == second.group,
        reply.handle() is Ok,
    ensures
        request_for(handles_after(handles, first.group, reply), second).replace_id == Some(
            reply.handle()->Ok_0,
        ),
{
}

/// An alert never replaces the notification of another group: what was
/// recorded for the first alert's group is not what a request of a second
/// group names, whatever the reply to the first was.
pub proof fn lemma_other_group_untouched(
    handles: Map<Seq<char>, u64>,
    first: PreparedAlertView,
    second: PreparedAlertView,
    reply: SinkReplyView,
)
    requires
        first.group != second.group,
    ensures
        request_for(handles_after(handles, first.group, reply), second) == request_for(
            handles,
            second,
        ),
        !handles.contains_key(second.group) ==> request_for(
            handles_after(handles, first.group, reply),
            second,
        ).replace_id is None,
{
}

/// A reply that gives no handle leaves the live notifications as they were.
pub proof fn lemma_failure_keeps_handles(
    handles: Map<Seq<char>, u64>,
    group: Seq<char>,
    reply: SinkReplyView,
)
    requires
        reply.handle() is Err,
    ensures
        handles_after(handles, group, reply) == handles,
{
}

} // verus!
