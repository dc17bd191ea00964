use vstd::prelude::*;
use vstd::utf8::encode_utf8;

use crate::frame::{encode_request, reply_outcome, reply_status, reply_view, request_frame};
use crate::status::StatusKind;
use crate::text::{is_blank, lemma_trimmed_empty_iff_blank, trim, trimmed};

verus! {

/// The largest username, in bytes, that the request frame can announce.
pub const MAX_USERNAME_LEN: usize = 255;

/// Where a session stands in its one exchange with the server.
#[derive(Clone, Copy, Debug, PartialEq, Eq, Structural)]
pub enum Phase {
    /// Credentials accepted; no connection made yet.
    Idle,
    /// The connection exists and has not opened yet.
    Opening,
    /// The connection is open and the request was sent.
    Connecting,
    /// The exchange is over.
    Terminal,
}

/// What a session asks its caller to do, in the order given.
#[derive(Debug, PartialEq, Eq)]
pub enum Action {
    /// Hand this status to the status sink.
    Report(StatusKind),
    /// Open a connection to the configured address.
    Connect,
    /// Set the connection to binary framing.
    UseBinaryFraming,
    /// Send these bytes as one binary frame; any failure to send is ignored.
    Send(Vec<u8>),
    /// Close the connection; any failure to close is ignored.
    Close,
}

/// The mathematical value of an action.
pub enum ActionModel {
    Report(StatusKind),
    Connect,
    UseBinaryFraming,
    Send(Seq<u8>),
    Close,
}

impl View for Action {
    type V = ActionModel;

    open spec fn view(&self) -> ActionModel {
        match self {
            Action::Report(k) => ActionModel::Report(*k),
            Action::Connect => ActionModel::Connect,
            Action::UseBinaryFraming => ActionModel::UseBinaryFraming,
            Action::Send(b) => ActionModel::Send(b@),
            Action::Close => ActionModel::Close,
        }
    }
}

/// The mathematical value of a list of actions.
pub open spec fn actions_view(v: Seq<Action>) -> Seq<ActionModel> {
    v.map_values(|a: Action| a@)
}

/// The mathematical value of a session: its phase and the trimmed
/// credentials, as UTF-8 bytes.
pub struct SessionView {
    pub phase: Phase,
    pub user: Seq<u8>,
    pub pass: Seq<u8>,
}

/// A session in the same place with another phase.
pub open spec fn with_phase(s: SessionView, phase: Phase) -> SessionView {
    SessionView { phase, user: s.user, pass: s.pass }
}

/// A session holds credentials that fit in a request frame.
pub open spec fn session_wf(s: SessionView) -> bool {
    s.user.len() <= MAX_USERNAME_LEN
}

/// Whether a username and a password make a request: both non-blank, and
/// the username short enough for its length to fit in one byte.
pub open spec fn accepts(username: Seq<char>, password: Seq<char>) -> bool {
    &&& trimmed(username).len() > 0
    &&& trimmed(password).len() > 0
    &&& encode_utf8(trimmed(username)).len() <= MAX_USERNAME_LEN
}

/// A submission: a session that waits for its connection and asks for one,
/// or a finished session that reports invalid input.
pub open spec fn submit_step(username: Seq<char>, password: Seq<char>) -> (
    SessionView,
    Seq<ActionModel>,
) {
    let user = encode_utf8(trimmed(username));
    let pass = encode_utf8(trimmed(password));
    if accepts(username, password) {
        (SessionView { phase: Phase::Idle, user, pass }, seq![ActionModel::Connect])
    } else {
        (
            SessionView { phase: Phase::Terminal, user: Seq::empty(), pass: Seq::empty() },
            seq![ActionModel::Report(StatusKind::InvalidInput)],
        )
    }
}

/// The connection was made: it is set to binary framing before any data flows.
pub open spec fn created_step(s: SessionView) -> (SessionView, Seq<ActionModel>) {
    if s.phase == Phase::Idle {
        (with_phase(s, Phase::Opening), seq![ActionModel::UseBinaryFraming])
    } else {
        (s, Seq::empty())
    }
}

/// The connection could not be made: the session ends with a connection failure.
pub open spec fn create_failed_step(s: SessionView) -> (SessionView, Seq<ActionModel>) {
    if s.phase == Phase::Idle {
        (with_phase(s, Phase::Terminal), seq![ActionModel::Report(StatusKind::Connection)])
    } else {
        (s, Seq::empty())
    }
}

/// The connection opened: report `Connecting`, then send the request.
pub open spec fn open_step(s: SessionView) -> (SessionView, Seq<ActionModel>) {
    if s.phase == Phase::Opening {
        (
            with_phase(s, Phase::Connecting),
            seq![
                ActionModel::Report(StatusKind::Connecting),
                ActionModel::Send(request_frame(s.user, s.pass)),
            ],
        )
    } else {
        (s, Seq::empty())
    }
}

/// A reply came: the first one decides the outcome and ends the session.
pub open spec fn message_step(s: SessionView, reply: Option<Seq<u8>>) -> (
    SessionView,
    Seq<ActionModel>,
) {
    if s.phase == Phase::Connecting {
        (with_phase(s, Phase::Terminal), seq![ActionModel::Report(reply_outcome(reply))])
    } else {
        (s, Seq::empty())
    }
}

/// The connection failed: in every phase, report the failure and close.
pub open spec fn error_step(s: SessionView) -> (SessionView, Seq<ActionModel>) {
    (
        with_phase(s, Phase::Terminal),
        seq![ActionModel::Report(StatusKind::Connection), ActionModel::Close],
    )
}

/// One request/response exchange with the server, driven by the events of
/// its connection. Each event method returns the actions for the caller to
/// perform, in order.
pub struct Session {
    phase: Phase,
    user: Vec<u8>,
    pass: Vec<u8>,
}

impl View for Session {
    type V = SessionView;

    closed spec fn view(&self) -> SessionView {
        SessionView { phase: self.phase, user: self.user@, pass: self.pass@ }
    }
}

impl Session {
    /// The session's invariant.
    pub open spec fn wf(&self) -> bool {
        session_wf(self@)
    }

    /// The phase the session is in.
    pub fn phase(&self) -> (r: Phase)
        ensures
            r == self@.phase,
    {
        self.phase
    }

    /// Starts a session for a username and a password, both trimmed. Blank
    /// credentials, or a username longer than a frame can announce, end it at
    /// once with `InvalidInput`; otherwise it asks for a connection.
    pub fn submit(username: &str, password: &str) -> (r: (Session, Vec<Action>))
        ensures
            r.0.wf(),
            r.0@ == submit_step(username@, password@).0,
            actions_view(r.1@) =~= submit_step(username@, password@).1,
    {
        let user = trim(username);
        let pass = trim(password);
        let user_bytes = user.as_bytes();
        let pass_bytes = pass.as_bytes();
        if user.is_empty() || pass.is_empty() || user_bytes.len() > MAX_USERNAME_LEN {
            let session = Session { phase: Phase::Terminal, user: Vec::new(), pass: Vec::new() };
            let actions = vec![Action::Report(StatusKind::InvalidInput)];
            assert(actions_view(actions@) =~= submit_step(username@, password@).1);
            (session, actions)
        } else {
            let session = Session {
                phase: Phase::Idle,
                user: vstd::slice::slice_to_vec(user_bytes),
                pass: vstd::slice::slice_to_vec(pass_bytes),
            };
            let actions = vec![Action::Connect];
            assert(actions_view(actions@) =~= submit_step(username@, password@).1);
            (session, actions)
        }
    }

    /// The connection was made.
    pub fn on_created(&mut self) -> (r: Vec<Action>)
        requires
            old(self).wf(),
        ensures
            final(self).wf(),
            final(self)@ == created_step(old(self)@).0,
            actions_view(r@) =~= created_step(old(self)@).1,
    {
        if self.phase == Phase::Idle {
            self.phase = Phase::Opening;
            let actions = vec![Action::UseBinaryFraming];
            assert(actions_view(actions@) =~= created_step(old(self)@).1);
            actions
        } else {
            Vec::new()
        }
    }

    /// The connection could not be made.
    pub fn on_create_failed(&mut self) -> (r: Vec<Action>)
        requires
            old(self).wf(),
        ensures
            final(self).wf(),
            final(self)@ == create_failed_step(old(self)@).0,
            actions_view(r@) =~= create_failed_step(old(self)@).1,
    {
        if self.phase == Phase::Idle {
            self.phase = Phase::Terminal;
            let actions = vec![Action::Report(StatusKind::Connection)];
            assert(actions_view(actions@) =~= create_failed_step(old(self)@).1);
            actions
        } else {
            Vec::new()
        }
    }

    /// The connection opened.
    pub fn on_open(&mut self) -> (r: Vec<Action>)
        requires
            old(self).wf(),
        ensures
            final(self).wf(),
            final(self)@ == open_step(old(self)@).0,
            actions_view(r@) =~= open_step(old(self)@).1,
    {
        if self.phase == Phase::Opening {
            self.phase = Phase::Connecting;
            let frame = encode_request(self.user.as_slice(), self.pass.as_slice());
            let actions = vec![Action::Report(StatusKind::Connecting), Action::Send(frame)];
            assert(actions_view(actions@) =~= open_step(old(self)@).1);
            actions
        } else {
            Vec::new()
        }
    }

    /// A reply arrived: `Some` with its bytes for a binary frame, `None` for
    /// any other kind of frame.
    pub fn on_message(&mut self, reply: Option<&[u8]>) -> (r: Vec<Action>)
        requires
            old(self).wf(),
        ensures
            final(self).wf(),
            final(self)@ == message_step(old(self)@, reply_view(reply)).0,
            actions_view(r@) =~= message_step(old(self)@, reply_view(reply)).1,
    {
        if self.phase == Phase::Connecting {
            self.phase = Phase::Terminal;
            let actions = vec![Action::Report(reply_status(reply))];
            assert(actions_view(actions@) =~= message_step(old(self)@, reply_view(reply)).1);
            actions
        } else {
            Vec::new()
        }
    }

    /// The connection reported an error.
    pub fn on_error(&mut self) -> (r: Vec<Action>)
        requires
            old(self).wf(),
        ensures
            final(self).wf(),
            final(self)@ == error_step(old(self)@).0,
            actions_view(r@) =~= error_step(old(self)@).1,
    {
        self.phase = Phase::Terminal;
        let actions = vec![Action::Report(StatusKind::Connection), Action::Close];
        assert(actions_view(actions@) =~= error_step(old(self)@).1);
        actions
    }
}

/// Credentials that are empty or all white space after trimming end the
/// session at once with `InvalidInput`, and no connection is asked for.
pub proof fn lemma_blank_input_rejected(username: Seq<char>, password: Seq<char>)
    requires
        is_blank(username) || is_blank(password),
    ensures
        submit_step(username, password).0.phase == Phase::Terminal,
        submit_step(username, password).1 == seq![ActionModel::Report(StatusKind::InvalidInput)],
        forall|i: int|
            0 <= i < submit_step(username, password).1.len() ==> !(#[trigger] submit_step(
                username,
                password,
            ).1[i] is Connect),
{
    lemma_trimmed_empty_iff_blank(username);
    lemma_trimmed_empty_iff_blank(password);
}

/// For credentials that make a request, the frame sent once the connection
/// opens starts with the trimmed username's length in bytes, goes on with
/// the trimmed username's bytes, and ends with the trimmed password's bytes.
pub proof fn lemma_request_frame_layout(username: Seq<char>, password: Seq<char>)
    requires
        !is_blank(username),
        !is_blank(password),
        encode_utf8(trimmed(username)).len() <= MAX_USERNAME_LEN,
    ensures
        ({
            let user = encode_utf8(trimmed(username));
            let pass = encode_utf8(trimmed(password));
            let actions = open_step(created_step(submit_step(username, password).0).0).1;
            &&& actions.len() == 2
            &&& actions[1] matches ActionModel::Send(frame) && frame.len() == 1 + user.len()
                + pass.len() && frame[0] as int == user.len() && frame.subrange(1, 1 + user.len() as int)
                == user && frame.subrange(1 + user.len() as int, frame.len() as int) == pass
        }),
{
    lemma_trimmed_empty_iff_blank(username);
    lemma_trimmed_empty_iff_blank(password);
    let user = encode_utf8(trimmed(username));
    let pass = encode_utf8(trimmed(password));
    let frame = request_frame(user, pass);
    assert(frame.subrange(1, 1 + user.len() as int) =~= user);
    assert(frame.subrange(1 + user.len() as int, frame.len() as int) =~= pass);
}

/// Whatever the session's phase, the open event sends a request frame only
/// after it has reported `Connecting`; from `Opening` it does both.
pub proof fn lemma_connecting_before_send(s: SessionView)
    ensures
        forall|j: int|
            0 <= j < open_step(s).1.len() && #[trigger] open_step(s).1[j] is Send ==> exists|i: int|
                0 <= i < j && #[trigger] open_step(s).1[i] == ActionModel::Report(
                    StatusKind::Connecting,
                ),
        s.phase == Phase::Opening ==> open_step(s).1.len() == 2 && open_step(s).1[0]
            == ActionModel::Report(StatusKind::Connecting) && open_step(s).1[1] is Send,
{
    assert forall|j: int|
        0 <= j < open_step(s).1.len() && #[trigger] open_step(s).1[j] is Send implies exists|i: int|
        0 <= i < j && #[trigger] open_step(s).1[i] == ActionModel::Report(
            StatusKind::Connecting,
        ) by {
        assert(open_step(s).1[0] == ActionModel::Report(StatusKind::Connecting));
    }
}

/// A reply that is not a binary frame, or is an empty one, ends a connected
/// session with `Unexpected`.
pub proof fn lemma_bad_reply_unexpected(s: SessionView, reply: Option<Seq<u8>>)
    requires
        s.phase == Phase::Connecting,
        reply matches Some(b) ==> b.len() == 0,
    ensures
        message_step(s, reply).0.phase == Phase::Terminal,
        message_step(s, reply).1 == seq![ActionModel::Report(StatusKind::Unexpected)],
{
}

/// A connection error reports a failed connection and closes, in every
/// phase: after a reply has been handled, and again when it comes twice.
pub proof fn lemma_error_reports_and_closes(s: SessionView, reply: Option<Seq<u8>>)
    ensures
        error_step(s).0.phase == Phase::Terminal,
        error_step(s).1 == seq![
            ActionModel::Report(StatusKind::Connection),
            ActionModel::Close,
        ],
        error_step(message_step(s, reply).0).1 == seq![
            ActionModel::Report(StatusKind::Connection),
            ActionModel::Close,
        ],
        error_step(error_step(s).0).1 == seq![
            ActionModel::Report(StatusKind::Connection),
            ActionModel::Close,
        ],
{
}

} // verus!
