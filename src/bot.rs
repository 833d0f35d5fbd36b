//! The orchestrator: dispatch on the input's modality, assembly of the
//! conversation context, and the order of the backend calls of one turn.
//!
//! A turn is a sequence of steps. `Bot::start_turn` looks at the input and
//! names the first backend call to make (an `Action`); the caller makes it
//! and reports what came back (an `Event`) to `Bot::advance`, which names the
//! next call, until the action is `Reply` or `Fail`.

use std::sync::Arc;
use vstd::prelude::*;
use crate::persona::PersonaManager;
use crate::prompt::{
    Input,
    InputView,
    Message,
    MessageView,
    messages_view,
    opt_view,
    clone_opt,
    system_view,
    user_view,
    assistant_view,
};

verus! {

/// The backend call that the turn needs next, or its outcome.
#[derive(Debug, PartialEq, Eq)]
pub enum Action {
    /// Describe the image at `reference` following `prompt`.
    AnalyzeImage { reference: String, prompt: String },
    /// Describe the video at `reference` following `prompt`.
    AnalyzeVideo { reference: String, prompt: String },
    /// Transcribe the audio.
    Transcribe { audio: Vec<u8> },
    /// Append `message` to the history of `session_id`.
    Store { session_id: String, message: Message },
    /// Fetch the whole history of `session_id`, oldest first.
    FetchHistory { session_id: String },
    /// Ask the language model for its reply to `context`.
    Chat { context: Vec<Message> },
    /// The turn is over and answers `text`.
    Reply { text: String },
    /// The turn is over and fails with the error of the last backend call.
    Fail,
}

pub ghost enum ActionView {
    AnalyzeImage { reference: Seq<char>, prompt: Seq<char> },
    AnalyzeVideo { reference: Seq<char>, prompt: Seq<char> },
    Transcribe { audio: Seq<u8> },
    Store { session_id: Seq<char>, message: MessageView },
    FetchHistory { session_id: Seq<char> },
    Chat { context: Seq<MessageView> },
    Reply { text: Seq<char> },
    Fail,
}

impl View for Action {
    type V = ActionView;

    open spec fn view(&self) -> ActionView {
        match self {
            Action::AnalyzeImage { reference, prompt } => ActionView::AnalyzeImage {
                reference: reference@,
                prompt: prompt@,
            },
            Action::AnalyzeVideo { reference, prompt } => ActionView::AnalyzeVideo {
                reference: reference@,
                prompt: prompt@,
            },
            Action::Transcribe { audio } => ActionView::Transcribe { audio: audio@ },
            Action::Store { session_id, message } => ActionView::Store {
                session_id: session_id@,
                message: message@,
            },
            Action::FetchHistory { session_id } => ActionView::FetchHistory {
                session_id: session_id@,
            },
            Action::Chat { context } => ActionView::Chat { context: messages_view(context@) },
            Action::Reply { text } => ActionView::Reply { text: text@ },
            Action::Fail => ActionView::Fail,
        }
    }
}

/// What the caller saw when it made the call that the last action named.
#[derive(Debug, PartialEq, Eq)]
pub enum Event {
    /// A call that answers with text (analysis, transcription, chat) succeeded.
    Text(String),
    /// A message was appended to the history.
    Stored,
    /// The history was fetched.
    History(Vec<Message>),
    /// The call failed.
    Failed,
}

pub ghost enum EventView {
    Text(Seq<char>),
    Stored,
    History(Seq<MessageView>),
    Failed,
}

impl View for Event {
    type V = EventView;

    open spec fn view(&self) -> EventView {
        match self {
            Event::Text(t) => EventView::Text(t@),
            Event::Stored => EventView::Stored,
            Event::History(h) => EventView::History(messages_view(h@)),
            Event::Failed => EventView::Failed,
        }
    }
}

/// Where a turn stands: which result it waits for.
#[derive(Debug, PartialEq, Eq)]
pub enum Stage {
    AwaitAnalysis,
    AwaitTranscript,
    AwaitUserStored,
    AwaitHistory,
    AwaitChat,
    /// The model answered `reply`; the answer is being stored.
    AwaitReplyStored { reply: String },
    Done,
}

pub ghost enum StageView {
    AwaitAnalysis,
    AwaitTranscript,
    AwaitUserStored,
    AwaitHistory,
    AwaitChat,
    AwaitReplyStored { reply: Seq<char> },
    Done,
}

impl View for Stage {
    type V = StageView;

    open spec fn view(&self) -> StageView {
        match self {
            Stage::AwaitAnalysis => StageView::AwaitAnalysis,
            Stage::AwaitTranscript => StageView::AwaitTranscript,
            Stage::AwaitUserStored => StageView::AwaitUserStored,
            Stage::AwaitHistory => StageView::AwaitHistory,
            Stage::AwaitChat => StageView::AwaitChat,
            Stage::AwaitReplyStored { reply } => StageView::AwaitReplyStored { reply: reply@ },
            Stage::Done => StageView::Done,
        }
    }
}

/// One turn in progress.
#[derive(Debug, PartialEq, Eq)]
pub struct Turn {
    pub session_id: String,
    pub user_id: Option<String>,
    pub stage: Stage,
}

pub ghost struct TurnView {
    pub session_id: Seq<char>,
    pub user_id: Option<Seq<char>>,
    pub stage: StageView,
}

impl View for Turn {
    type V = TurnView;

    open spec fn view(&self) -> TurnView {
        TurnView { session_id: self.session_id@, user_id: opt_view(self.user_id), stage: self.stage@ }
    }
}

/// What the decisions of a turn depend on: the default persona's system
/// prompt and which optional capabilities are present.
pub ghost struct BotConfig {
    pub system_prompt: Seq<char>,
    pub has_memory: bool,
    pub has_vision: bool,
    pub has_voice: bool,
}

pub open spec fn image_instruction() -> Seq<char> {
    "Describe this image"@
}

pub open spec fn video_instruction() -> Seq<char> {
    "Describe this video"@
}

pub open spec fn no_vision() -> Seq<char> {
    "Vision capability not enabled."@
}

pub open spec fn no_voice() -> Seq<char> {
    "Voice capability not enabled."@
}

pub open spec fn no_greeting() -> Seq<char> {
    "Hello! I am ready."@
}

/// The first step of the text pipeline for `text`.
pub open spec fn begin_text(
    cfg: BotConfig,
    session_id: Seq<char>,
    text: Seq<char>,
    user_id: Option<Seq<char>>,
) -> (TurnView, ActionView) {
    let user = user_view(text, user_id);
    if cfg.has_memory {
        (
            TurnView { session_id, user_id, stage: StageView::AwaitUserStored },
            ActionView::Store { session_id, message: user },
        )
    } else {
        (
            TurnView { session_id, user_id, stage: StageView::AwaitChat },
            ActionView::Chat { context: seq![system_view(cfg.system_prompt), user] },
        )
    }
}

/// The first step of a turn: dispatch on the input's modality.
pub open spec fn start(
    cfg: BotConfig,
    session_id: Seq<char>,
    input: InputView,
    user_id: Option<Seq<char>>,
) -> (TurnView, ActionView) {
    let done = TurnView { session_id, user_id, stage: StageView::Done };
    match input {
        InputView::Text(t) => begin_text(cfg, session_id, t, user_id),
        InputView::Image(r) => if cfg.has_vision {
            (
                TurnView { session_id, user_id, stage: StageView::AwaitAnalysis },
                ActionView::AnalyzeImage { reference: r, prompt: image_instruction() },
            )
        } else {
            (done, ActionView::Reply { text: no_vision() })
        },
        InputView::Audio(b) => if cfg.has_voice {
            (
                TurnView { session_id, user_id, stage: StageView::AwaitTranscript },
                ActionView::Transcribe { audio: b },
            )
        } else {
            (done, ActionView::Reply { text: no_voice() })
        },
        InputView::Video(r) => if cfg.has_vision {
            (
                TurnView { session_id, user_id, stage: StageView::AwaitAnalysis },
                ActionView::AnalyzeVideo { reference: r, prompt: video_instruction() },
            )
        } else {
            (done, ActionView::Reply { text: no_vision() })
        },
    }
}

/// Whether a turn at `stage` can take `event`: the event answers the call
/// that the stage waits for, or says that it failed.
pub open spec fn stage_accepts(stage: StageView, event: EventView) -> bool {
    match stage {
        StageView::AwaitAnalysis | StageView::AwaitTranscript | StageView::AwaitChat => event is Text
            || event is Failed,
        StageView::AwaitUserStored | StageView::AwaitReplyStored { .. } => event is Stored
            || event is Failed,
        StageView::AwaitHistory => event is History || event is Failed,
        StageView::Done => false,
    }
}

/// The step after `event`, for a turn that accepts it. A failure ends the
/// turn at once; a stored reply is answered only once it is stored.
pub open spec fn step(cfg: BotConfig, turn: TurnView, event: EventView) -> (TurnView, ActionView) {
    let done = TurnView { stage: StageView::Done, ..turn };
    match event {
        EventView::Failed => (done, ActionView::Fail),
        EventView::Text(t) => match turn.stage {
            StageView::AwaitTranscript => begin_text(cfg, turn.session_id, t, turn.user_id),
            StageView::AwaitChat => if cfg.has_memory {
                (
                    TurnView { stage: StageView::AwaitReplyStored { reply: t }, ..turn },
                    ActionView::Store { session_id: turn.session_id, message: assistant_view(t) },
                )
            } else {
                (done, ActionView::Reply { text: t })
            },
            _ => (done, ActionView::Reply { text: t }),
        },
        EventView::Stored => match turn.stage {
            StageView::AwaitUserStored => (
                TurnView { stage: StageView::AwaitHistory, ..turn },
                ActionView::FetchHistory { session_id: turn.session_id },
            ),
            StageView::AwaitReplyStored { reply } => (done, ActionView::Reply { text: reply }),
            _ => (done, ActionView::Fail),
        },
        EventView::History(h) => (
            TurnView { stage: StageView::AwaitChat, ..turn },
            ActionView::Chat { context: seq![system_view(cfg.system_prompt)] + h },
        ),
    }
}

/// Runs a turn from `turn` and `action` to its end against a memory store
/// that keeps the session's history `history` exactly, and a language model
/// that answers `llm(context)`. Yields the history afterwards and the last
/// action. Analysis and transcription are not modelled: a turn that needs
/// one stops there.
pub open spec fn run_turn(
    cfg: BotConfig,
    turn: TurnView,
    action: ActionView,
    history: Seq<MessageView>,
    llm: spec_fn(Seq<MessageView>) -> Seq<char>,
    fuel: nat,
) -> (Seq<MessageView>, ActionView)
    decreases fuel,
{
    if fuel == 0 {
        (history, action)
    } else {
        match action {
            ActionView::Store { message, .. } => {
                let (t, a) = step(cfg, turn, EventView::Stored);
                run_turn(cfg, t, a, history.push(message), llm, (fuel - 1) as nat)
            },
            ActionView::FetchHistory { .. } => {
                let (t, a) = step(cfg, turn, EventView::History(history));
                run_turn(cfg, t, a, history, llm, (fuel - 1) as nat)
            },
            ActionView::Chat { context } => {
                let (t, a) = step(cfg, turn, EventView::Text(llm(context)));
                run_turn(cfg, t, a, history, llm, (fuel - 1) as nat)
            },
            _ => (history, action),
        }
    }
}

/// A whole text turn on `text`, run as `run_turn` says.
pub open spec fn text_turn(
    cfg: BotConfig,
    session_id: Seq<char>,
    text: Seq<char>,
    user_id: Option<Seq<char>>,
    history: Seq<MessageView>,
    llm: spec_fn(Seq<MessageView>) -> Seq<char>,
) -> (Seq<MessageView>, ActionView) {
    let (t, a) = start(cfg, session_id, InputView::Text(text), user_id);
    run_turn(cfg, t, a, history, llm, 5)
}

/// Without a memory store, a text turn hands the model exactly the system
/// prompt followed by the user's message, stores nothing, and answers with
/// the model's reply unchanged.
pub proof fn lemma_text_turn_without_memory(
    cfg: BotConfig,
    session_id: Seq<char>,
    text: Seq<char>,
    user_id: Option<Seq<char>>,
    history: Seq<MessageView>,
    llm: spec_fn(Seq<MessageView>) -> Seq<char>,
)
    requires
        !cfg.has_memory,
    ensures
        start(cfg, session_id, InputView::Text(text), user_id).1 == (ActionView::Chat {
            context: seq![system_view(cfg.system_prompt), user_view(text, user_id)],
        }),
        text_turn(cfg, session_id, text, user_id, history, llm) == (
            history,
            ActionView::Reply {
                text: llm(seq![system_view(cfg.system_prompt), user_view(text, user_id)]),
            },
        ),
{
    reveal_with_fuel(run_turn, 3);
}

/// With a memory store, a text turn first appends the user's message to the
/// history, then hands the model the system prompt followed by the whole
/// history as the store returns it, then appends the model's reply, and
/// answers with that reply.
pub proof fn lemma_text_turn_with_memory(
    cfg: BotConfig,
    session_id: Seq<char>,
    text: Seq<char>,
    user_id: Option<Seq<char>>,
    history: Seq<MessageView>,
    llm: spec_fn(Seq<MessageView>) -> Seq<char>,
)
    requires
        cfg.has_memory,
    ensures
        ({
            let user = user_view(text, user_id);
            let reply = llm(seq![system_view(cfg.system_prompt)] + history.push(user));
            text_turn(cfg, session_id, text, user_id, history, llm) == (
                history.push(user).push(assistant_view(reply)),
                ActionView::Reply { text: reply },
            )
        }),
{
    reveal_with_fuel(run_turn, 6);
}

/// With a memory store, two text turns in one session starting from an
/// empty history leave exactly the first user message, the first reply,
/// the second user message and the second reply, in that order.
pub proof fn lemma_two_text_turns(
    cfg: BotConfig,
    session_id: Seq<char>,
    first: Seq<char>,
    first_user: Option<Seq<char>>,
    second: Seq<char>,
    second_user: Option<Seq<char>>,
    llm: spec_fn(Seq<MessageView>) -> Seq<char>,
)
    requires
        cfg.has_memory,
    ensures
        ({
            let (h1, a1) = text_turn(cfg, session_id, first, first_user, Seq::empty(), llm);
            let (h2, a2) = text_turn(cfg, session_id, second, second_user, h1, llm);
            let u1 = user_view(first, first_user);
            let r1 = llm(seq![system_view(cfg.system_prompt), u1]);
            let u2 = user_view(second, second_user);
            let r2 = llm(seq![system_view(cfg.system_prompt), u1, assistant_view(r1), u2]);
            &&& a1 == ActionView::Reply { text: r1 }
            &&& a2 == ActionView::Reply { text: r2 }
            &&& h2 == seq![u1, assistant_view(r1), u2, assistant_view(r2)]
        }),
{
    let empty = Seq::<MessageView>::empty();
    let u1 = user_view(first, first_user);
    let r1 = llm(seq![system_view(cfg.system_prompt)] + empty.push(u1));
    lemma_text_turn_with_memory(cfg, session_id, first, first_user, empty, llm);
    assert(seq![system_view(cfg.system_prompt)] + empty.push(u1) =~= seq![system_view(cfg.system_prompt), u1]);
    let h1 = empty.push(u1).push(assistant_view(r1));
    let u2 = user_view(second, second_user);
    lemma_text_turn_with_memory(cfg, session_id, second, second_user, h1, llm);
    assert(seq![system_view(cfg.system_prompt)] + h1.push(u2) =~= seq![
        system_view(cfg.system_prompt),
        u1,
        assistant_view(r1),
        u2,
    ]);
    let r2 = llm(seq![system_view(cfg.system_prompt)] + h1.push(u2));
    assert(h1.push(u2).push(assistant_view(r2)) =~= seq![u1, assistant_view(r1), u2, assistant_view(r2)]);
}

/// An input whose capability is absent is answered at once with the
/// advisory text, and no backend call is named.
pub proof fn lemma_absent_capability(
    cfg: BotConfig,
    session_id: Seq<char>,
    input: InputView,
    user_id: Option<Seq<char>>,
)
    ensures
        !cfg.has_vision && (input is Image || input is Video) ==> start(
            cfg,
            session_id,
            input,
            user_id,
        ) == (
            TurnView { session_id, user_id, stage: StageView::Done },
            ActionView::Reply { text: no_vision() },
        ),
        !cfg.has_voice && input is Audio ==> start(cfg, session_id, input, user_id) == (
            TurnView { session_id, user_id, stage: StageView::Done },
            ActionView::Reply { text: no_voice() },
        ),
{
}

/// With a voice backend, the transcript of an audio input goes through the
/// same steps as a text input with that text.
pub proof fn lemma_transcript_is_text(
    cfg: BotConfig,
    session_id: Seq<char>,
    audio: Seq<u8>,
    transcript: Seq<char>,
    user_id: Option<Seq<char>>,
)
    requires
        cfg.has_voice,
    ensures
        step(
            cfg,
            start(cfg, session_id, InputView::Audio(audio), user_id).0,
            EventView::Text(transcript),
        ) == start(cfg, session_id, InputView::Text(transcript), user_id),
{
}

pub open spec fn opt_str_view(o: Option<&str>) -> Option<Seq<char>> {
    match o {
        Some(s) => Some(s@),
        None => None,
    }
}

fn owned_opt(o: Option<&str>) -> (r: Option<String>)
    ensures
        opt_view(r) == opt_str_view(o),
{
    match o {
        Some(s) => Some(s.to_string()),
        None => None,
    }
}

/// The context handed to the language model: the system prompt first,
/// then the history in its order.
pub fn build_context(system_prompt: &str, history: Vec<Message>) -> (r: Vec<Message>)
    ensures
        messages_view(r@) == seq![system_view(system_prompt@)] + messages_view(history@),
{
    let mut context: Vec<Message> = Vec::new();
    context.push(Message::system(system_prompt));
    let mut rest = history;
    context.append(&mut rest);
    assert(messages_view(context@) =~= seq![system_view(system_prompt@)] + messages_view(history@));
    context
}

impl Turn {
    /// Whether this turn can take `event`.
    pub fn accepts(&self, event: &Event) -> (r: bool)
        ensures
            r == stage_accepts(self@.stage, event@),
    {
        match self.stage {
            Stage::AwaitAnalysis | Stage::AwaitTranscript | Stage::AwaitChat => matches!(
                event,
                Event::Text(_) | Event::Failed
            ),
            Stage::AwaitUserStored | Stage::AwaitReplyStored { .. } => matches!(
                event,
                Event::Stored | Event::Failed
            ),
            Stage::AwaitHistory => matches!(event, Event::History(_) | Event::Failed),
            Stage::Done => false,
        }
    }
}

/// The orchestrator. It holds the language-model backend, optionally a
/// memory store and vision and voice backends, and the persona registry.
/// The handles are only carried here: the decisions of a turn depend on
/// which of them are present, and the caller makes the calls.
pub struct Bot<L, M, V, A> {
    llm: L,
    memory: Option<M>,
    persona_manager: Arc<PersonaManager>,
    vision_client: Option<V>,
    voice_client: Option<A>,
}

impl<L, M, V, A> Bot<L, M, V, A> {
    pub closed spec fn llm_handle(&self) -> L {
        self.llm
    }

    pub closed spec fn memory_handle(&self) -> Option<M> {
        self.memory
    }

    pub closed spec fn vision_handle(&self) -> Option<V> {
        self.vision_client
    }

    pub closed spec fn voice_handle(&self) -> Option<A> {
        self.voice_client
    }

    pub closed spec fn personas(&self) -> crate::persona::PersonaManagerView {
        self.persona_manager@
    }

    pub open spec fn config(&self) -> BotConfig {
        BotConfig {
            system_prompt: self.personas().default_persona().system_prompt,
            has_memory: self.memory_handle() is Some,
            has_vision: self.vision_handle() is Some,
            has_voice: self.voice_handle() is Some,
        }
    }

    pub fn new(
        llm: L,
        memory: Option<M>,
        persona_manager: Arc<PersonaManager>,
        vision_client: Option<V>,
        voice_client: Option<A>,
    ) -> (r: Self)
        ensures
            r.llm_handle() == llm,
            r.memory_handle() == memory,
            r.personas() == persona_manager@,
            r.vision_handle() == vision_client,
            r.voice_handle() == voice_client,
    {
        Bot { llm, memory, persona_manager, vision_client, voice_client }
    }

    pub fn llm(&self) -> (r: &L)
        ensures
            *r == self.llm_handle(),
    {
        &self.llm
    }

    pub fn memory(&self) -> (r: &Option<M>)
        ensures
            *r == self.memory_handle(),
    {
        &self.memory
    }

    pub fn vision_client(&self) -> (r: &Option<V>)
        ensures
            *r == self.vision_handle(),
    {
        &self.vision_client
    }

    pub fn voice_client(&self) -> (r: &Option<A>)
        ensures
            *r == self.voice_handle(),
    {
        &self.voice_client
    }

    /// The default persona's greeting, or a generic one where it has none.
    pub fn get_greeting(&self) -> (r: String)
        ensures
            r@ == match self.personas().default_persona().greeting {
                Some(g) => g,
                None => no_greeting(),
            },
    {
        match &self.persona_manager.get_default_persona().greeting {
            Some(g) => g.clone(),
            None => "Hello! I am ready.".to_string(),
        }
    }

    fn text_step(&self, session_id: String, text: &str, user_id: Option<String>) -> (r: (Turn, Action))
        ensures
            (r.0@, r.1@) == begin_text(self.config(), session_id@, text@, opt_view(user_id)),
    {
        let user = Message::user(text, clone_opt(&user_id));
        if self.memory.is_some() {
            let action = Action::Store { session_id: session_id.clone(), message: user };
            (Turn { session_id, user_id, stage: Stage::AwaitUserStored }, action)
        } else {
            let persona = self.persona_manager.get_default_persona();
            let mut context: Vec<Message> = Vec::new();
            context.push(Message::system(persona.system_prompt.as_str()));
            context.push(user);
            assert(messages_view(context@) =~= seq![system_view(self.config().system_prompt), user@]);
            (Turn { session_id, user_id, stage: Stage::AwaitChat }, Action::Chat { context })
        }
    }

    /// The first step of a turn on `input` in session `session_id`, from
    /// user `user_id` where the surface knows it.
    pub fn start_turn(&self, session_id: &str, input: Input, user_id: Option<&str>) -> (r: (
        Turn,
        Action,
    ))
        ensures
            (r.0@, r.1@) == start(self.config(), session_id@, input@, opt_str_view(user_id)),
    {
        let session = session_id.to_string();
        let user = owned_opt(user_id);
        match input {
            Input::Text(t) => self.text_step(session, t.as_str(), user),
            Input::Image(reference) => {
                if self.vision_client.is_some() {
                    let action = Action::AnalyzeImage {
                        reference,
                        prompt: "Describe this image".to_string(),
                    };
                    (Turn { session_id: session, user_id: user, stage: Stage::AwaitAnalysis }, action)
                } else {
                    let action = Action::Reply { text: "Vision capability not enabled.".to_string() };
                    (Turn { session_id: session, user_id: user, stage: Stage::Done }, action)
                }
            },
            Input::Audio(audio) => {
                if self.voice_client.is_some() {
                    let action = Action::Transcribe { audio };
                    (Turn { session_id: session, user_id: user, stage: Stage::AwaitTranscript }, action)
                } else {
                    let action = Action::Reply { text: "Voice capability not enabled.".to_string() };
                    (Turn { session_id: session, user_id: user, stage: Stage::Done }, action)
                }
            },
            Input::Video(reference) => {
                if self.vision_client.is_some() {
                    let action = Action::AnalyzeVideo {
                        reference,
                        prompt: "Describe this video".to_string(),
                    };
                    (Turn { session_id: session, user_id: user, stage: Stage::AwaitAnalysis }, action)
                } else {
                    let action = Action::Reply { text: "Vision capability not enabled.".to_string() };
                    (Turn { session_id: session, user_id: user, stage: Stage::Done }, action)
                }
            },
        }
    }

    /// The next step of `turn`, now that the call it waited for gave `event`.
    pub fn advance(&self, turn: Turn, event: Event) -> (r: (Turn, Action))
        requires
            stage_accepts(turn@.stage, event@),
        ensures
            (r.0@, r.1@) == step(self.config(), turn@, event@),
    {
        let Turn { session_id, user_id, stage } = turn;
        match event {
            Event::Failed => (Turn { session_id, user_id, stage: Stage::Done }, Action::Fail),
            Event::Text(text) => match stage {
                Stage::AwaitTranscript => self.text_step(session_id, text.as_str(), user_id),
                Stage::AwaitChat => {
                    if self.memory.is_some() {
                        let message = Message::assistant(text.as_str());
                        let action = Action::Store { session_id: session_id.clone(), message };
                        let stage = Stage::AwaitReplyStored { reply: text };
                        (Turn { session_id, user_id, stage }, action)
                    } else {
                        (Turn { session_id, user_id, stage: Stage::Done }, Action::Reply { text })
                    }
                },
                _ => (Turn { session_id, user_id, stage: Stage::Done }, Action::Reply { text }),
            },
            Event::Stored => match stage {
                Stage::AwaitUserStored => {
                    let action = Action::FetchHistory { session_id: session_id.clone() };
                    (Turn { session_id, user_id, stage: Stage::AwaitHistory }, action)
                },
                Stage::AwaitReplyStored { reply } => {
                    (Turn { session_id, user_id, stage: Stage::Done }, Action::Reply { text: reply })
                },
                _ => (Turn { session_id, user_id, stage: Stage::Done }, Action::Fail),
            },
            Event::History(history) => {
                let persona = self.persona_manager.get_default_persona();
                let context = build_context(persona.system_prompt.as_str(), history);
                (Turn { session_id, user_id, stage: Stage::AwaitChat }, Action::Chat { context })
            },
        }
    }
}

} // verus!
