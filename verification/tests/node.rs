use asky::node::{
    frame_keys, FrameKeys, key_decision, prompt_activity, split_lines, AskyPrompt, AskyState, KeyDecision, PromptNode, Settle,
};
use asky::text_style_adapter::{StyledString, TextStyle};
use asky::utils::renderer::{AnsiColor, DrawTime};
use asky::{Confirm, KeyCode, KeyEvent, MultiSelect, Select, Text, Toggle};

#[test]
fn node_defaults() {
    assert_eq!(AskyState::default(), AskyState::Waiting);
    assert_eq!(AskyPrompt::default(), AskyPrompt::Inactive);
    let node = PromptNode::new();
    assert_eq!(node.state, AskyState::Waiting);
    assert!(node.pending);
}

#[test]
fn keys_decide_what_a_frame_does() {
    assert_eq!(key_decision(true, false, DrawTime::Update), KeyDecision::Abort);
    assert_eq!(key_decision(true, true, DrawTime::First), KeyDecision::Abort);
    assert_eq!(key_decision(false, true, DrawTime::Update), KeyDecision::Handle);
    assert_eq!(key_decision(false, false, DrawTime::First), KeyDecision::Handle);
    assert_eq!(key_decision(false, false, DrawTime::Update), KeyDecision::Skip);
}

#[test]
fn answer_is_delivered_once() {
    let mut node = PromptNode::new();
    let mut t = DrawTime::Update;
    assert_eq!(node.finish(&mut t, Settle::Cancel), Some(Settle::Cancel));
    assert_eq!(t, DrawTime::Last);
    assert_eq!(node.state, AskyState::Complete);
    // the last draw clears the writer, and delivers nothing more
    assert_eq!(node.after_draw(&mut t), (true, None));
    assert_eq!(node.finish(&mut t, Settle::Value), None);
}

#[test]
fn draws_go_first_update_last() {
    let mut node = PromptNode::new();
    let mut t = DrawTime::First;
    assert_eq!(node.after_draw(&mut t), (false, None));
    assert_eq!(t, DrawTime::Update);
    assert_eq!(node.after_draw(&mut t), (false, None));
    assert_eq!(t, DrawTime::Update);
    assert_eq!(node.state, AskyState::Waiting);
    t = DrawTime::Last;
    assert_eq!(node.after_draw(&mut t), (true, Some(Settle::Value)));
    assert_eq!(node.state, AskyState::Complete);
    assert!(!node.pending);
}

#[test]
fn activity_changes_are_announced() {
    let states = vec![AskyState::Complete, AskyState::Waiting];
    assert_eq!(prompt_activity(false, &states, 0), Some(AskyPrompt::Active));
    assert_eq!(prompt_activity(true, &states, 0), None);
    let done = vec![AskyState::Complete, AskyState::Hidden];
    assert_eq!(prompt_activity(true, &done, 0), Some(AskyPrompt::Inactive));
    assert_eq!(prompt_activity(true, &done, 1), None);
    assert_eq!(prompt_activity(false, &vec![], 0), None);
}

fn run(s: &str, style: Option<TextStyle>) -> StyledString {
    StyledString::new(String::from(s), style)
}

#[test]
fn runs_are_laid_out_in_lines() {
    let red = Some(TextStyle { fg: Some(AnsiColor::Red.dark()), bg: None });
    let lines = split_lines(&vec![run("ab\ncd", None), run("e\n", red), run("", None), run("f", red)]);
    assert_eq!(lines.len(), 3);
    assert_eq!(lines[0].len(), 1);
    assert_eq!(lines[0][0].s, "ab\n");
    assert_eq!(lines[1].len(), 2);
    assert_eq!(lines[1][0].s, "cd");
    assert_eq!(lines[1][0].style, None);
    assert_eq!(lines[1][1].s, "e\n");
    assert_eq!(lines[1][1].style, red);
    assert_eq!(lines[2].len(), 2);
    assert_eq!(lines[2][0].s, "");
    assert_eq!(lines[2][1].s, "f");
}

#[test]
fn empty_runs_make_no_lines() {
    assert_eq!(split_lines(&vec![]).len(), 0);
    let lines = split_lines(&vec![run("\n\n", None)]);
    assert_eq!(lines.len(), 2);
    assert_eq!(lines[0][0].s, "\n");
    assert_eq!(lines[1][0].s, "\n");
}

fn batch(chars: &str, codes: Vec<KeyCode>) -> KeyEvent {
    KeyEvent { chars: chars.chars().collect(), codes }
}

#[test]
fn frames_of_a_text_prompt() {
    let mut node = PromptNode::new();
    let mut t = DrawTime::Update;
    let mut prompt = Text::new("Name");
    // keys that do not concern the prompt are skipped once it was drawn
    let r = frame_keys(&mut node, &mut t, &mut prompt, &batch("", vec![KeyCode::Up]));
    assert_eq!(r, FrameKeys { decision: KeyDecision::Skip, submitted: false, settle: None });
    let r = frame_keys(&mut node, &mut t, &mut prompt, &batch("Al", vec![]));
    assert_eq!(r.decision, KeyDecision::Handle);
    assert!(!r.submitted);
    assert_eq!(prompt.input.value, "Al");
    assert_eq!(t, DrawTime::Update);
    let r = frame_keys(&mut node, &mut t, &mut prompt, &batch("", vec![KeyCode::Enter]));
    assert_eq!(r, FrameKeys { decision: KeyDecision::Handle, submitted: true, settle: Some(Settle::Value) });
    assert_eq!(t, DrawTime::Last);
    assert_eq!(node.state, AskyState::Complete);
}

#[test]
fn an_abort_key_cancels_the_frame() {
    let mut node = PromptNode::new();
    let mut t = DrawTime::First;
    let mut prompt = Confirm::new("Sure?");
    let r = frame_keys(&mut node, &mut t, &mut prompt, &batch("", vec![KeyCode::Right, KeyCode::Esc]));
    assert_eq!(r, FrameKeys { decision: KeyDecision::Abort, submitted: false, settle: Some(Settle::Cancel) });
    assert!(!prompt.active);
    assert_eq!(t, DrawTime::Last);
}

#[test]
fn frames_of_list_prompts() {
    let mut node = PromptNode::new();
    let mut t = DrawTime::Update;
    let mut toggle = Toggle::new("", ["a", "b"]);
    let r = frame_keys(&mut node, &mut t, &mut toggle, &batch("x", vec![]));
    assert_eq!(r.decision, KeyDecision::Skip);
    let r = frame_keys(&mut node, &mut t, &mut toggle, &batch("", vec![KeyCode::Right, KeyCode::Enter]));
    assert!(r.submitted);
    assert!(toggle.active);

    let mut node = PromptNode::new();
    let mut t = DrawTime::Update;
    let mut select = Select::new("", vec!["a", "b"]);
    let r = frame_keys(&mut node, &mut t, &mut select, &batch("", vec![KeyCode::Down]));
    assert_eq!(r, FrameKeys { decision: KeyDecision::Handle, submitted: false, settle: None });
    assert_eq!(select.input.focused, 1);

    let mut node = PromptNode::new();
    let mut t = DrawTime::Update;
    let mut multi = MultiSelect::new("", vec!["a", "b"]);
    let r = frame_keys(&mut node, &mut t, &mut multi, &batch("", vec![KeyCode::Char(' '), KeyCode::Enter]));
    assert_eq!(r.settle, Some(Settle::Value));
    assert_eq!(multi.selected_count, 1);
}
