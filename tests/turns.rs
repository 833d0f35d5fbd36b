use std::sync::Arc;

use chatbot::bot::{build_context, Action, Bot, Event, Stage, Turn};
use chatbot::persona::{Persona, PersonaManager};
use chatbot::prompt::{Input, Message};

type TestBot = Bot<(), (), (), ()>;

const BUILTIN_PROMPT: &str = "You are a helpful AI assistant.";

fn registry() -> Arc<PersonaManager> {
    Arc::new(PersonaManager::new(Vec::new(), "default"))
}

fn bot(memory: bool, vision: bool, voice: bool) -> TestBot {
    Bot::new(
        (),
        if memory { Some(()) } else { None },
        registry(),
        if vision { Some(()) } else { None },
        if voice { Some(()) } else { None },
    )
}

/// What one driven turn did.
struct Run {
    result: Result<String, ()>,
    contexts: Vec<Vec<Message>>,
    calls: usize,
}

/// Carries out the actions of one turn against an in-process history and
/// the given model; the call numbered `fail_at` (from 0) fails.
fn drive(
    bot: &TestBot,
    session: &str,
    input: Input,
    user_id: Option<&str>,
    store: &mut Vec<Message>,
    llm: &dyn Fn(&[Message]) -> String,
    fail_at: Option<usize>,
) -> Run {
    let (mut turn, mut action) = bot.start_turn(session, input, user_id);
    let mut contexts = Vec::new();
    let mut calls = 0usize;
    loop {
        let failing = fail_at == Some(calls);
        let event = match action {
            Action::Reply { text } => return Run { result: Ok(text), contexts, calls },
            Action::Fail => return Run { result: Err(()), contexts, calls },
            Action::Store { session_id, message } => {
                assert_eq!(session_id, session);
                if failing {
                    Event::Failed
                } else {
                    store.push(message);
                    Event::Stored
                }
            }
            Action::FetchHistory { session_id } => {
                assert_eq!(session_id, session);
                if failing { Event::Failed } else { Event::History(store.clone()) }
            }
            Action::Chat { context } => {
                let reply = llm(&context);
                contexts.push(context);
                if failing { Event::Failed } else { Event::Text(reply) }
            }
            Action::AnalyzeImage { reference, prompt } | Action::AnalyzeVideo { reference, prompt } => {
                if failing { Event::Failed } else { Event::Text(format!("{prompt}: {reference}")) }
            }
            Action::Transcribe { audio } => {
                if failing { Event::Failed } else { Event::Text(String::from_utf8(audio).unwrap()) }
            }
        };
        calls += 1;
        assert!(turn.accepts(&event));
        let (t, a) = bot.advance(turn, event);
        turn = t;
        action = a;
    }
}

fn echo(context: &[Message]) -> String {
    format!("echo:{}", context.last().map(|m| m.content.clone()).unwrap_or_default())
}

fn counted(context: &[Message]) -> String {
    format!("reply#{}", context.len())
}

#[test]
fn text_without_memory_sends_system_and_user() {
    let b = bot(false, false, false);
    let mut store = Vec::new();
    let run = drive(&b, "s1", Input::Text("hello".to_string()), Some("u7"), &mut store, &counted, None);
    assert_eq!(run.result, Ok("reply#2".to_string()));
    assert_eq!(
        run.contexts,
        vec![vec![Message::system(BUILTIN_PROMPT), Message::user("hello", Some("u7".to_string()))]]
    );
    assert!(store.is_empty());
    assert_eq!(run.calls, 1);
}

#[test]
fn echo_backend_without_memory() {
    let b = bot(false, false, false);
    let mut store = Vec::new();
    let run = drive(&b, "s", Input::Text("hi".to_string()), None, &mut store, &echo, None);
    assert_eq!(run.result, Ok("echo:hi".to_string()));
}

#[test]
fn two_turns_with_memory_record_both_exchanges() {
    let b = bot(true, false, false);
    let mut store = Vec::new();
    let first = drive(&b, "s", Input::Text("t1".to_string()), Some("u"), &mut store, &echo, None);
    assert_eq!(first.result, Ok("echo:t1".to_string()));
    let second = drive(&b, "s", Input::Text("t2".to_string()), Some("u"), &mut store, &echo, None);
    assert_eq!(second.result, Ok("echo:t2".to_string()));
    assert_eq!(
        store,
        vec![
            Message::user("t1", Some("u".to_string())),
            Message::assistant("echo:t1"),
            Message::user("t2", Some("u".to_string())),
            Message::assistant("echo:t2"),
        ]
    );
    assert_eq!(
        second.contexts[0],
        vec![
            Message::system(BUILTIN_PROMPT),
            Message::user("t1", Some("u".to_string())),
            Message::assistant("echo:t1"),
            Message::user("t2", Some("u".to_string())),
        ]
    );
}

#[test]
fn persisted_history_precedes_new_input() {
    let b = bot(true, false, false);
    let mut store = vec![Message::user("a", None), Message::assistant("b")];
    let run = drive(&b, "s", Input::Text("c".to_string()), None, &mut store, &echo, None);
    assert_eq!(
        run.contexts,
        vec![vec![
            Message::system(BUILTIN_PROMPT),
            Message::user("a", None),
            Message::assistant("b"),
            Message::user("c", None),
        ]]
    );
    assert_eq!(run.result, Ok("echo:c".to_string()));
    assert_eq!(store.len(), 4);
    assert_eq!(store[3], Message::assistant("echo:c"));
}

#[test]
fn memory_turn_step_by_step() {
    let b = bot(true, false, false);
    let (turn, action) = b.start_turn("s", Input::Text("c".to_string()), None);
    assert_eq!(action, Action::Store { session_id: "s".to_string(), message: Message::user("c", None) });
    assert_eq!(turn.stage, Stage::AwaitUserStored);
    let (turn, action) = b.advance(turn, Event::Stored);
    assert_eq!(action, Action::FetchHistory { session_id: "s".to_string() });
    let history = vec![Message::user("a", None), Message::assistant("b"), Message::user("c", None)];
    let (turn, action) = b.advance(turn, Event::History(history));
    assert_eq!(
        action,
        Action::Chat {
            context: vec![
                Message::system(BUILTIN_PROMPT),
                Message::user("a", None),
                Message::assistant("b"),
                Message::user("c", None),
            ],
        }
    );
    let (turn, action) = b.advance(turn, Event::Text("d".to_string()));
    assert_eq!(action, Action::Store { session_id: "s".to_string(), message: Message::assistant("d") });
    assert_eq!(turn.stage, Stage::AwaitReplyStored { reply: "d".to_string() });
    let (turn, action) = b.advance(turn, Event::Stored);
    assert_eq!(action, Action::Reply { text: "d".to_string() });
    assert_eq!(turn.stage, Stage::Done);
}

#[test]
fn stored_messages_come_back_unchanged() {
    let b = bot(true, false, false);
    let mut store = Vec::new();
    drive(&b, "s", Input::Text("with id".to_string()), Some("42"), &mut store, &echo, None);
    drive(&b, "s", Input::Text("without id".to_string()), None, &mut store, &echo, None);
    assert_eq!(store[0].role, "user");
    assert_eq!(store[0].content, "with id");
    assert_eq!(store[0].user_id, Some("42".to_string()));
    assert_eq!(store[1].role, "assistant");
    assert_eq!(store[1].user_id, None);
    assert_eq!(store[2].content, "without id");
    assert_eq!(store[2].user_id, None);
}

#[test]
fn image_without_vision_is_advisory() {
    let b = bot(true, false, true);
    let (turn, action) = b.start_turn("s", Input::Image("http://x/y.png".to_string()), None);
    assert_eq!(action, Action::Reply { text: "Vision capability not enabled.".to_string() });
    assert_eq!(turn.stage, Stage::Done);
}

#[test]
fn video_without_vision_is_advisory() {
    let b = bot(false, false, false);
    let (_, action) = b.start_turn("s", Input::Video("clip.webm".to_string()), None);
    assert_eq!(action, Action::Reply { text: "Vision capability not enabled.".to_string() });
}

#[test]
fn audio_without_voice_is_advisory() {
    let b = bot(true, true, false);
    let (turn, action) = b.start_turn("s", Input::Audio(vec![1, 2, 3]), None);
    assert_eq!(action, Action::Reply { text: "Voice capability not enabled.".to_string() });
    assert_eq!(turn.stage, Stage::Done);
}

#[test]
fn image_with_vision_is_analyzed() {
    let b = bot(false, true, false);
    let (turn, action) = b.start_turn("s", Input::Image("pic.png".to_string()), None);
    assert_eq!(
        action,
        Action::AnalyzeImage { reference: "pic.png".to_string(), prompt: "Describe this image".to_string() }
    );
    let (_, action) = b.advance(turn, Event::Text("a cat".to_string()));
    assert_eq!(action, Action::Reply { text: "a cat".to_string() });
}

#[test]
fn video_with_vision_is_analyzed() {
    let b = bot(true, true, false);
    let mut store = Vec::new();
    let run = drive(&b, "s", Input::Video("clip.webm".to_string()), None, &mut store, &echo, None);
    assert_eq!(run.result, Ok("Describe this video: clip.webm".to_string()));
    assert!(store.is_empty());
}

#[test]
fn audio_transcript_follows_text_pipeline() {
    let b = bot(true, false, true);
    let mut store = Vec::new();
    let run = drive(&b, "s", Input::Audio(b"spoken".to_vec()), Some("u"), &mut store, &echo, None);
    assert_eq!(run.result, Ok("echo:spoken".to_string()));
    assert_eq!(
        store,
        vec![Message::user("spoken", Some("u".to_string())), Message::assistant("echo:spoken")]
    );
}

#[test]
fn chat_failure_fails_turn() {
    let b = bot(false, false, false);
    let mut store = Vec::new();
    let run = drive(&b, "s", Input::Text("x".to_string()), None, &mut store, &echo, Some(0));
    assert_eq!(run.result, Err(()));
}

#[test]
fn user_store_failure_stops_before_chat() {
    let b = bot(true, false, false);
    let mut store = Vec::new();
    let run = drive(&b, "s", Input::Text("x".to_string()), None, &mut store, &echo, Some(0));
    assert_eq!(run.result, Err(()));
    assert!(run.contexts.is_empty());
}

#[test]
fn reply_store_failure_fails_turn() {
    let b = bot(true, false, false);
    let mut store = Vec::new();
    let run = drive(&b, "s", Input::Text("x".to_string()), None, &mut store, &echo, Some(3));
    assert_eq!(run.result, Err(()));
    assert_eq!(run.contexts.len(), 1);
    assert_eq!(store, vec![Message::user("x", None)]);
}

#[test]
fn analysis_failure_fails_turn() {
    let b = bot(false, true, false);
    let (turn, _) = b.start_turn("s", Input::Image("p".to_string()), None);
    let (turn, action) = b.advance(turn, Event::Failed);
    assert_eq!(action, Action::Fail);
    assert_eq!(turn.stage, Stage::Done);
}

#[test]
fn turn_accepts_only_matching_events() {
    let waiting_store = Turn { session_id: "s".to_string(), user_id: None, stage: Stage::AwaitUserStored };
    assert!(waiting_store.accepts(&Event::Stored));
    assert!(waiting_store.accepts(&Event::Failed));
    assert!(!waiting_store.accepts(&Event::Text("x".to_string())));
    let waiting_history = Turn { session_id: "s".to_string(), user_id: None, stage: Stage::AwaitHistory };
    assert!(waiting_history.accepts(&Event::History(Vec::new())));
    assert!(!waiting_history.accepts(&Event::Stored));
    let done = Turn { session_id: "s".to_string(), user_id: None, stage: Stage::Done };
    assert!(!done.accepts(&Event::Failed));
}

#[test]
fn context_puts_system_prompt_first() {
    let ctx = build_context("sys", vec![Message::user("a", None), Message::assistant("b")]);
    assert_eq!(ctx, vec![Message::system("sys"), Message::user("a", None), Message::assistant("b")]);
    assert_eq!(build_context("only", Vec::new()), vec![Message::system("only")]);
}

#[test]
fn greeting_of_builtin_persona() {
    let b = bot(false, false, false);
    assert_eq!(b.get_greeting(), "Hello! How can I help you?");
}

#[test]
fn greeting_when_persona_has_none() {
    let quiet = Persona {
        name: "quiet".to_string(),
        description: "says little".to_string(),
        system_prompt: "be brief".to_string(),
        greeting: None,
    };
    let pm = Arc::new(PersonaManager::new(vec![("quiet".to_string(), quiet)], "quiet"));
    let b: TestBot = Bot::new((), None, pm, None, None);
    assert_eq!(b.get_greeting(), "Hello! I am ready.");
    let mut store = Vec::new();
    let run = drive(&b, "s", Input::Text("q".to_string()), None, &mut store, &echo, None);
    assert_eq!(run.contexts[0][0], Message::system("be brief"));
}

#[test]
fn handles_are_kept() {
    let b: Bot<u8, u16, u32, u64> = Bot::new(1, Some(2), registry(), None, Some(4));
    assert_eq!(*b.llm(), 1);
    assert_eq!(*b.memory(), Some(2));
    assert_eq!(*b.vision_client(), None);
    assert_eq!(*b.voice_client(), Some(4));
}
