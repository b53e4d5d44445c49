//! The composer footer: which hint line is showing, the shortcut table,
//! and the exact styled text of every footer line. Lines are plain values
//! (text plus a tone); a render layer outside the library turns them into
//! terminal output.

use vstd::prelude::*;
use vstd::string::StringExecFns;
use crate::key_hint::{ctrl, plain, shift, spec_key_label, KeyBinding, KeyCode};
use crate::text::{digit_char, push_char, spaces, spec_decimal, spec_digit_char, decimal_u64};

verus! {

/// Which line of hints the footer is showing.
#[derive(Clone, Copy, Debug, PartialEq, Eq, Structural)]
pub enum FooterMode {
    CtrlCReminder,
    ShortcutPrompt,
    ShortcutOverlay,
    EscHint,
    Enhancing,
    Empty,
}

/// What the footer knows about an in-flight enhancement call: time elapsed
/// since it started and the configured ceiling, both in milliseconds.
#[derive(Clone, Copy, Debug)]
pub struct PromptEnhancementFooterState {
    pub elapsed_ms: u64,
    pub timeout_ms: Option<u64>,
}

/// Everything the footer is rendered from.
#[derive(Clone, Copy, Debug)]
pub struct FooterProps {
    pub mode: FooterMode,
    pub esc_backtrack_hint: bool,
    pub use_shift_enter_hint: bool,
    pub is_task_running: bool,
    pub context_window_percent: Option<u8>,
    pub prompt_enhancement: Option<PromptEnhancementFooterState>,
    pub prompt_enhancer_enabled: bool,
    pub prompt_enhancement_history_available: bool,
}

/// The slice of the props the shortcut table reads.
#[derive(Clone, Copy, Debug, PartialEq, Eq, Structural)]
pub struct ShortcutsState {
    pub use_shift_enter_hint: bool,
    pub esc_backtrack_hint: bool,
    pub prompt_enhancer_enabled: bool,
    pub prompt_enhancement_history_available: bool,
}

/// How a piece of footer text is toned down or called out.
#[derive(Clone, Copy, Debug, PartialEq, Eq, Structural)]
pub enum TextTone {
    Plain,
    Dim,
    Alert,
}

/// One run of footer text with a tone.
#[derive(Debug)]
pub struct FooterSpan {
    pub text: String,
    pub tone: TextTone,
}

/// One footer line; `dim` tones down the whole line.
#[derive(Debug)]
pub struct FooterLine {
    pub spans: Vec<FooterSpan>,
    pub dim: bool,
}

#[verifier::ext_equal]
pub struct SpecSpan {
    pub text: Seq<char>,
    pub tone: TextTone,
}

#[verifier::ext_equal]
pub struct SpecLine {
    pub spans: Seq<SpecSpan>,
    pub dim: bool,
}

impl View for FooterSpan {
    type V = SpecSpan;

    open spec fn view(&self) -> SpecSpan {
        SpecSpan { text: self.text@, tone: self.tone }
    }
}

impl DeepView for FooterSpan {
    type V = SpecSpan;

    open spec fn deep_view(&self) -> SpecSpan {
        self.view()
    }
}

impl View for FooterLine {
    type V = SpecLine;

    open spec fn view(&self) -> SpecLine {
        SpecLine { spans: self.spans.deep_view(), dim: self.dim }
    }
}

impl DeepView for FooterLine {
    type V = SpecLine;

    open spec fn deep_view(&self) -> SpecLine {
        self.view()
    }
}

fn span_str(text: &str, tone: TextTone) -> (r: FooterSpan)
    ensures
        r@ == (SpecSpan { text: text@, tone }),
{
    FooterSpan { text: text.to_owned(), tone }
}

/// A line holding one empty, untoned span.
pub open spec fn spec_empty_line() -> SpecLine {
    SpecLine { spans: seq![SpecSpan { text: Seq::empty(), tone: TextTone::Plain }], dim: false }
}

fn empty_line() -> (r: FooterLine)
    ensures
        r@ == spec_empty_line(),
{
    let mut spans: Vec<FooterSpan> = Vec::new();
    spans.push(FooterSpan { text: String::new(), tone: TextTone::Plain });
    let r = FooterLine { spans, dim: false };
    proof {
        assert(r@ =~~= spec_empty_line());
    }
    r
}

/// The next footer mode after the user asks for the shortcut view: the
/// ctrl-c reminder holds if it must, the overlay folds back to the prompt,
/// an in-flight enhancement keeps its line, anything else opens the overlay.
pub open spec fn spec_toggle_shortcut_mode(current: FooterMode, ctrl_c_hint: bool) -> FooterMode {
    if ctrl_c_hint && current is CtrlCReminder {
        current
    } else {
        match current {
            FooterMode::ShortcutOverlay | FooterMode::CtrlCReminder => FooterMode::ShortcutPrompt,
            FooterMode::Enhancing => FooterMode::Enhancing,
            _ => FooterMode::ShortcutOverlay,
        }
    }
}

pub fn toggle_shortcut_mode(current: FooterMode, ctrl_c_hint: bool) -> (r: FooterMode)
    ensures
        r == spec_toggle_shortcut_mode(current, ctrl_c_hint),
{
    if ctrl_c_hint && matches!(current, FooterMode::CtrlCReminder) {
        return current;
    }
    match current {
        FooterMode::ShortcutOverlay | FooterMode::CtrlCReminder => FooterMode::ShortcutPrompt,
        FooterMode::Enhancing => FooterMode::Enhancing,
        _ => FooterMode::ShortcutOverlay,
    }
}

/// The mode after the user presses escape: ignored while a task runs.
pub open spec fn spec_esc_hint_mode(current: FooterMode, is_task_running: bool) -> FooterMode {
    if is_task_running {
        current
    } else {
        FooterMode::EscHint
    }
}

pub fn esc_hint_mode(current: FooterMode, is_task_running: bool) -> (r: FooterMode)
    ensures
        r == spec_esc_hint_mode(current, is_task_running),
{
    if is_task_running {
        current
    } else {
        FooterMode::EscHint
    }
}

/// The mode after any composer activity: transient hints fold back to the
/// shortcut prompt; the prompt and the enhancement line stay.
pub open spec fn spec_reset_mode_after_activity(current: FooterMode) -> FooterMode {
    match current {
        FooterMode::EscHint | FooterMode::ShortcutOverlay | FooterMode::CtrlCReminder
            | FooterMode::Empty => FooterMode::ShortcutPrompt,
        other => other,
    }
}

pub fn reset_mode_after_activity(current: FooterMode) -> (r: FooterMode)
    ensures
        r == spec_reset_mode_after_activity(current),
{
    match current {
        FooterMode::EscHint | FooterMode::ShortcutOverlay | FooterMode::CtrlCReminder
            | FooterMode::Empty => FooterMode::ShortcutPrompt,
        other => other,
    }
}

/// The footer state a fresh enhancement call starts from: nothing elapsed,
/// no ceiling known.
pub fn default_prompt_enhancement_footer_state() -> (r: PromptEnhancementFooterState)
    ensures
        r.elapsed_ms == 0,
        r.timeout_ms is None,
{
    PromptEnhancementFooterState { elapsed_ms: 0, timeout_ms: None }
}

/// The shortcuts the overlay can list, in display order.
#[derive(Clone, Copy, Debug, PartialEq, Eq, Structural)]
pub enum ShortcutId {
    Commands,
    InsertNewline,
    FilePaths,
    PasteImage,
    EditPrevious,
    Quit,
    ShowTranscript,
}

/// When a chord is offered for a shortcut.
#[derive(Clone, Copy, Debug, PartialEq, Eq, Structural)]
pub enum DisplayCondition {
    Always,
    WhenShiftEnterHint,
    WhenNotShiftEnterHint,
}

pub open spec fn spec_condition_matches(c: DisplayCondition, state: ShortcutsState) -> bool {
    match c {
        DisplayCondition::Always => true,
        DisplayCondition::WhenShiftEnterHint => state.use_shift_enter_hint,
        DisplayCondition::WhenNotShiftEnterHint => !state.use_shift_enter_hint,
    }
}

impl DisplayCondition {
    pub fn matches(self, state: ShortcutsState) -> (r: bool)
        ensures
            r == spec_condition_matches(self, state),
    {
        match self {
            DisplayCondition::Always => true,
            DisplayCondition::WhenShiftEnterHint => state.use_shift_enter_hint,
            DisplayCondition::WhenNotShiftEnterHint => !state.use_shift_enter_hint,
        }
    }
}

/// One chord a shortcut may be reached by, and when it is offered.
#[derive(Clone, Copy, Debug, PartialEq, Eq, Structural)]
pub struct ShortcutBinding {
    pub key: KeyBinding,
    pub condition: DisplayCondition,
}

impl ShortcutBinding {
    pub fn matches(&self, state: ShortcutsState) -> (r: bool)
        ensures
            r == spec_condition_matches(self.condition, state),
    {
        self.condition.matches(state)
    }
}

/// One shortcut: its chords and the text around the chosen chord.
#[derive(Debug)]
pub struct ShortcutDescriptor {
    pub id: ShortcutId,
    pub bindings: Vec<ShortcutBinding>,
    pub prefix: String,
    pub label: String,
}

#[verifier::ext_equal]
pub struct SpecDescriptor {
    pub id: ShortcutId,
    pub bindings: Seq<ShortcutBinding>,
    pub prefix: Seq<char>,
    pub label: Seq<char>,
}

impl View for ShortcutDescriptor {
    type V = SpecDescriptor;

    open spec fn view(&self) -> SpecDescriptor {
        SpecDescriptor {
            id: self.id,
            bindings: self.bindings@,
            prefix: self.prefix@,
            label: self.label@,
        }
    }
}

impl DeepView for ShortcutDescriptor {
    type V = SpecDescriptor;

    open spec fn deep_view(&self) -> SpecDescriptor {
        self.view()
    }
}

/// The first chord of a shortcut whose condition holds, if any.
pub open spec fn spec_binding_for(bindings: Seq<ShortcutBinding>, state: ShortcutsState) -> Option<
    ShortcutBinding,
>
    decreases bindings.len(),
{
    if bindings.len() == 0 {
        None
    } else if spec_condition_matches(bindings[0].condition, state) {
        Some(bindings[0])
    } else {
        spec_binding_for(bindings.drop_first(), state)
    }
}

proof fn lemma_binding_for_skip(bindings: Seq<ShortcutBinding>, state: ShortcutsState, i: int)
    requires
        0 <= i <= bindings.len(),
        forall|j: int| 0 <= j < i ==> !spec_condition_matches(bindings[j].condition, state),
    ensures
        spec_binding_for(bindings, state) == spec_binding_for(bindings.skip(i), state),
    decreases i,
{
    if i > 0 {
        lemma_binding_for_skip(bindings.drop_first(), state, i - 1);
        assert(bindings.drop_first().skip(i - 1) =~= bindings.skip(i));
    } else {
        assert(bindings.skip(0) =~= bindings);
    }
}

impl ShortcutDescriptor {
    pub fn binding_for(&self, state: ShortcutsState) -> (r: Option<ShortcutBinding>)
        ensures
            r == spec_binding_for(self.bindings@, state),
    {
        let n = self.bindings.len();
        let mut i: usize = 0;
        while i < n
            invariant
                n == self.bindings@.len(),
                i <= n,
                forall|j: int|
                    0 <= j < i ==> !spec_condition_matches(self.bindings@[j].condition, state),
            decreases n - i,
        {
            let b = self.bindings[i];
            if b.matches(state) {
                proof {
                    lemma_binding_for_skip(self.bindings@, state, i as int);
                    assert(self.bindings@.skip(i as int)[0] == self.bindings@[i as int]);
                }
                return Some(b);
            }
            i += 1;
        }
        proof {
            lemma_binding_for_skip(self.bindings@, state, n as int);
            assert(self.bindings@.skip(n as int) =~= Seq::<ShortcutBinding>::empty());
        }
        None
    }
}

fn descriptor1(id: ShortcutId, b: ShortcutBinding, prefix: &str, label: &str) -> (r:
    ShortcutDescriptor)
    ensures
        r@ == (SpecDescriptor { id, bindings: seq![b], prefix: prefix@, label: label@ }),
{
    let mut bindings: Vec<ShortcutBinding> = Vec::new();
    bindings.push(b);
    let r = ShortcutDescriptor { id, bindings, prefix: prefix.to_owned(), label: label.to_owned() };
    proof {
        assert(r@ =~~= (SpecDescriptor { id, bindings: seq![b], prefix: prefix@, label: label@ }));
    }
    r
}

fn descriptor2(
    id: ShortcutId,
    b0: ShortcutBinding,
    b1: ShortcutBinding,
    prefix: &str,
    label: &str,
) -> (r: ShortcutDescriptor)
    ensures
        r@ == (SpecDescriptor { id, bindings: seq![b0, b1], prefix: prefix@, label: label@ }),
{
    let mut bindings: Vec<ShortcutBinding> = Vec::new();
    bindings.push(b0);
    bindings.push(b1);
    let r = ShortcutDescriptor { id, bindings, prefix: prefix.to_owned(), label: label.to_owned() };
    proof {
        assert(r@ =~~= (SpecDescriptor {
            id,
            bindings: seq![b0, b1],
            prefix: prefix@,
            label: label@,
        }));
    }
    r
}

/// The shortcut table, in display order.
pub open spec fn spec_shortcuts() -> Seq<SpecDescriptor> {
    seq![
        SpecDescriptor {
            id: ShortcutId::Commands,
            bindings: seq![
                ShortcutBinding {
                    key: KeyBinding { code: KeyCode::Char('/'), ctrl: false, shift: false },
                    condition: DisplayCondition::Always,
                },
            ],
            prefix: ""@,
            label: " for commands"@,
        },
        SpecDescriptor {
            id: ShortcutId::InsertNewline,
            bindings: seq![
                ShortcutBinding {
                    key: KeyBinding { code: KeyCode::Enter, ctrl: false, shift: true },
                    condition: DisplayCondition::WhenShiftEnterHint,
                },
                ShortcutBinding {
                    key: KeyBinding { code: KeyCode::Char('j'), ctrl: true, shift: false },
                    condition: DisplayCondition::WhenNotShiftEnterHint,
                },
            ],
            prefix: ""@,
            label: " for newline"@,
        },
        SpecDescriptor {
            id: ShortcutId::FilePaths,
            bindings: seq![
                ShortcutBinding {
                    key: KeyBinding { code: KeyCode::Char('@'), ctrl: false, shift: false },
                    condition: DisplayCondition::Always,
                },
            ],
            prefix: ""@,
            label: " for file paths"@,
        },
        SpecDescriptor {
            id: ShortcutId::PasteImage,
            bindings: seq![
                ShortcutBinding {
                    key: KeyBinding { code: KeyCode::Char('v'), ctrl: true, shift: false },
                    condition: DisplayCondition::Always,
                },
            ],
            prefix: ""@,
            label: " to paste images"@,
        },
        SpecDescriptor {
            id: ShortcutId::EditPrevious,
            bindings: seq![
                ShortcutBinding {
                    key: KeyBinding { code: KeyCode::Esc, ctrl: false, shift: false },
                    condition: DisplayCondition::Always,
                },
            ],
            prefix: ""@,
            label: ""@,
        },
        SpecDescriptor {
            id: ShortcutId::Quit,
            bindings: seq![
                ShortcutBinding {
                    key: KeyBinding { code: KeyCode::Char('c'), ctrl: true, shift: false },
                    condition: DisplayCondition::Always,
                },
            ],
            prefix: ""@,
            label: " to exit"@,
        },
        SpecDescriptor {
            id: ShortcutId::ShowTranscript,
            bindings: seq![
                ShortcutBinding {
                    key: KeyBinding { code: KeyCode::Char('t'), ctrl: true, shift: false },
                    condition: DisplayCondition::Always,
                },
            ],
            prefix: ""@,
            label: " to view transcript"@,
        },
    ]
}

pub fn shortcuts() -> (r: Vec<ShortcutDescriptor>)
    ensures
        r.deep_view() == spec_shortcuts(),
{
    let mut v: Vec<ShortcutDescriptor> = Vec::new();
    v.push(
        descriptor1(
            ShortcutId::Commands,
            ShortcutBinding { key: plain(KeyCode::Char('/')), condition: DisplayCondition::Always },
            "",
            " for commands",
        ),
    );
    v.push(
        descriptor2(
            ShortcutId::InsertNewline,
            ShortcutBinding {
                key: shift(KeyCode::Enter),
                condition: DisplayCondition::WhenShiftEnterHint,
            },
            ShortcutBinding {
                key: ctrl(KeyCode::Char('j')),
                condition: DisplayCondition::WhenNotShiftEnterHint,
            },
            "",
            " for newline",
        ),
    );
    v.push(
        descriptor1(
            ShortcutId::FilePaths,
            ShortcutBinding { key: plain(KeyCode::Char('@')), condition: DisplayCondition::Always },
            "",
            " for file paths",
        ),
    );
    v.push(
        descriptor1(
            ShortcutId::PasteImage,
            ShortcutBinding { key: ctrl(KeyCode::Char('v')), condition: DisplayCondition::Always },
            "",
            " to paste images",
        ),
    );
    v.push(
        descriptor1(
            ShortcutId::EditPrevious,
            ShortcutBinding { key: plain(KeyCode::Esc), condition: DisplayCondition::Always },
            "",
            "",
        ),
    );
    v.push(
        descriptor1(
            ShortcutId::Quit,
            ShortcutBinding { key: ctrl(KeyCode::Char('c')), condition: DisplayCondition::Always },
            "",
            " to exit",
        ),
    );
    v.push(
        descriptor1(
            ShortcutId::ShowTranscript,
            ShortcutBinding { key: ctrl(KeyCode::Char('t')), condition: DisplayCondition::Always },
            "",
            " to view transcript",
        ),
    );
    proof {
        assert(v.deep_view() =~~= spec_shortcuts());
    }
    v
}

/// The overlay line for one shortcut: its prefix, the chosen chord, and
/// its label — with the two-step escape hint spelled out when needed.
pub open spec fn spec_overlay_entry(d: SpecDescriptor, state: ShortcutsState) -> Option<SpecLine> {
    match spec_binding_for(d.bindings, state) {
        None => None,
        Some(b) => {
            let base = seq![
                SpecSpan { text: d.prefix, tone: TextTone::Plain },
                SpecSpan { text: spec_key_label(b.key), tone: TextTone::Plain },
            ];
            let spans = if d.id is EditPrevious {
                if state.esc_backtrack_hint {
                    base.push(
                        SpecSpan {
                            text: " again to edit previous message"@,
                            tone: TextTone::Plain,
                        },
                    )
                } else {
                    base + seq![
                        SpecSpan { text: " "@, tone: TextTone::Plain },
                        SpecSpan {
                            text: spec_key_label(
                                KeyBinding { code: KeyCode::Esc, ctrl: false, shift: false },
                            ),
                            tone: TextTone::Plain,
                        },
                        SpecSpan { text: " to edit previous message"@, tone: TextTone::Plain },
                    ]
                }
            } else {
                base.push(SpecSpan { text: d.label, tone: TextTone::Plain })
            };
            Some(SpecLine { spans, dim: false })
        },
    }
}

impl ShortcutDescriptor {
    pub fn overlay_entry(&self, state: ShortcutsState) -> (r: Option<FooterLine>)
        ensures
            match r {
                Some(l) => spec_overlay_entry(self@, state) == Some(l@),
                None => spec_overlay_entry(self@, state) is None,
            },
    {
        let b = match self.binding_for(state) {
            Some(b) => b,
            None => {
                return None;
            },
        };
        let mut spans: Vec<FooterSpan> = Vec::new();
        spans.push(FooterSpan { text: self.prefix.clone(), tone: TextTone::Plain });
        spans.push(FooterSpan { text: b.key.label(), tone: TextTone::Plain });
        if matches!(self.id, ShortcutId::EditPrevious) {
            if state.esc_backtrack_hint {
                spans.push(span_str(" again to edit previous message", TextTone::Plain));
            } else {
                spans.push(span_str(" ", TextTone::Plain));
                spans.push(FooterSpan { text: plain(KeyCode::Esc).label(), tone: TextTone::Plain });
                spans.push(span_str(" to edit previous message", TextTone::Plain));
            }
        } else {
            spans.push(FooterSpan { text: self.label.clone(), tone: TextTone::Plain });
        }
        let l = FooterLine { spans, dim: false };
        proof {
            let se = spec_overlay_entry(self@, state);
            assert(se is Some);
            assert(l@ =~~= se->0);
        }
        Some(l)
    }
}

pub open spec fn spec_entry_or_empty(d: SpecDescriptor, state: ShortcutsState) -> SpecLine {
    match spec_overlay_entry(d, state) {
        Some(l) => l,
        None => spec_empty_line(),
    }
}

fn entry_or_empty(d: &ShortcutDescriptor, state: ShortcutsState) -> (r: FooterLine)
    ensures
        r@ == spec_entry_or_empty(d@, state),
{
    match d.overlay_entry(state) {
        Some(l) => l,
        None => empty_line(),
    }
}

/// The ctrl-c reminder: press it again to interrupt a running task, or to
/// quit an idle one.
pub open spec fn spec_ctrl_c_reminder_line(is_task_running: bool) -> SpecLine {
    SpecLine {
        spans: seq![
            SpecSpan {
                text: spec_key_label(KeyBinding { code: KeyCode::Char('c'), ctrl: true, shift: false }),
                tone: TextTone::Plain,
            },
            SpecSpan {
                text: if is_task_running {
                    " again to interrupt"@
                } else {
                    " again to quit"@
                },
                tone: TextTone::Plain,
            },
        ],
        dim: true,
    }
}

fn ctrl_c_reminder_line(is_task_running: bool) -> (r: FooterLine)
    ensures
        r@ == spec_ctrl_c_reminder_line(is_task_running),
{
    let mut spans: Vec<FooterSpan> = Vec::new();
    spans.push(FooterSpan { text: ctrl(KeyCode::Char('c')).label(), tone: TextTone::Plain });
    if is_task_running {
        spans.push(span_str(" again to interrupt", TextTone::Plain));
    } else {
        spans.push(span_str(" again to quit", TextTone::Plain));
    }
    let r = FooterLine { spans, dim: true };
    proof {
        assert(r@ =~~= spec_ctrl_c_reminder_line(is_task_running));
    }
    r
}

/// The escape hint: one press primes it, the second edits the previous
/// message.
pub open spec fn spec_esc_hint_line(esc_backtrack_hint: bool) -> SpecLine {
    let esc = SpecSpan {
        text: spec_key_label(KeyBinding { code: KeyCode::Esc, ctrl: false, shift: false }),
        tone: TextTone::Plain,
    };
    SpecLine {
        spans: if esc_backtrack_hint {
            seq![
                esc,
                SpecSpan { text: " again to edit previous message"@, tone: TextTone::Plain },
            ]
        } else {
            seq![
                esc,
                SpecSpan { text: " "@, tone: TextTone::Plain },
                esc,
                SpecSpan { text: " to edit previous message"@, tone: TextTone::Plain },
            ]
        },
        dim: true,
    }
}

fn esc_hint_line(esc_backtrack_hint: bool) -> (r: FooterLine)
    ensures
        r@ == spec_esc_hint_line(esc_backtrack_hint),
{
    let mut spans: Vec<FooterSpan> = Vec::new();
    spans.push(FooterSpan { text: plain(KeyCode::Esc).label(), tone: TextTone::Plain });
    if esc_backtrack_hint {
        spans.push(span_str(" again to edit previous message", TextTone::Plain));
    } else {
        spans.push(span_str(" ", TextTone::Plain));
        spans.push(FooterSpan { text: plain(KeyCode::Esc).label(), tone: TextTone::Plain });
        spans.push(span_str(" to edit previous message", TextTone::Plain));
    }
    let r = FooterLine { spans, dim: true };
    proof {
        assert(r@ =~~= spec_esc_hint_line(esc_backtrack_hint));
    }
    r
}

/// Context left while a task runs, or the shortcut prompt when no
/// percentage is known.
pub open spec fn spec_context_window_line(percent: Option<u8>) -> SpecLine {
    match percent {
        Some(p) => SpecLine {
            spans: seq![
                SpecSpan { text: spec_decimal(p as int) + "%"@, tone: TextTone::Dim },
                SpecSpan { text: " context left"@, tone: TextTone::Dim },
            ],
            dim: false,
        },
        None => SpecLine {
            spans: seq![
                SpecSpan {
                    text: spec_key_label(
                        KeyBinding { code: KeyCode::Char('?'), ctrl: false, shift: false },
                    ),
                    tone: TextTone::Plain,
                },
                SpecSpan { text: " for shortcuts"@, tone: TextTone::Dim },
            ],
            dim: false,
        },
    }
}

fn context_window_line(percent: Option<u8>) -> (r: FooterLine)
    ensures
        r@ == spec_context_window_line(percent),
{
    let mut spans: Vec<FooterSpan> = Vec::new();
    match percent {
        Option::Some(p) => {
            let mut t = crate::text::decimal_u16(p as u16);
            push_char(&mut t, '%');
            proof {
                reveal_strlit("%");
                assert(t@ =~= spec_decimal(p as int) + "%"@);
            }
            spans.push(FooterSpan { text: t, tone: TextTone::Dim });
            spans.push(span_str(" context left", TextTone::Dim));
        },
        Option::None => {
            spans.push(FooterSpan { text: plain(KeyCode::Char('?')).label(), tone: TextTone::Plain });
            spans.push(span_str(" for shortcuts", TextTone::Dim));
        },
    }
    let r = FooterLine { spans, dim: false };
    proof {
        assert(r@ =~~= spec_context_window_line(percent));
    }
    r
}

/// One spinner frame for the elapsed time, cycling every 400 ms.
pub open spec fn spec_spinner_char(elapsed_ms: u64) -> char {
    let f = (elapsed_ms / 100) % 4;
    if f == 0 {
        '|'
    } else if f == 1 {
        '/'
    } else if f == 2 {
        '-'
    } else {
        '\\'
    }
}

fn spinner_char(elapsed_ms: u64) -> (c: char)
    ensures
        c == spec_spinner_char(elapsed_ms),
{
    let f = (elapsed_ms / 100) % 4;
    if f == 0 {
        '|'
    } else if f == 1 {
        '/'
    } else if f == 2 {
        '-'
    } else {
        '\\'
    }
}

/// Milliseconds rendered as seconds with one decimal digit, truncated.
pub open spec fn spec_seconds_tenths(ms: u64) -> Seq<char> {
    spec_decimal((ms / 1000) as int).push('.').push(spec_digit_char(((ms % 1000) / 100) as int))
}

fn seconds_tenths(ms: u64, suffix: &str) -> (s: String)
    ensures
        s@ == spec_seconds_tenths(ms) + suffix@,
{
    let mut s = decimal_u64(ms / 1000);
    push_char(&mut s, '.');
    push_char(&mut s, digit_char(((ms % 1000) / 100) as u16));
    s.append(suffix);
    proof {
        assert(s@ =~= spec_seconds_tenths(ms) + suffix@);
    }
    s
}

/// The enhancement-in-flight line: spinner, elapsed time, the configured
/// ceiling (with an alert once passed), and the cancel hint.
pub open spec fn spec_enhancing_line(state: PromptEnhancementFooterState) -> SpecLine {
    let base = seq![
        SpecSpan { text: seq![spec_spinner_char(state.elapsed_ms)], tone: TextTone::Plain },
        SpecSpan { text: " "@, tone: TextTone::Plain },
        SpecSpan { text: "Enhancing prompt…"@, tone: TextTone::Dim },
        SpecSpan { text: " "@, tone: TextTone::Plain },
        SpecSpan { text: spec_seconds_tenths(state.elapsed_ms) + "s elapsed"@, tone: TextTone::Dim },
    ];
    let with_timeout = match state.timeout_ms {
        Some(t) => {
            let b = base + seq![
                SpecSpan { text: " / "@, tone: TextTone::Dim },
                SpecSpan { text: spec_seconds_tenths(t) + "s max"@, tone: TextTone::Dim },
            ];
            if state.elapsed_ms >= t {
                b + seq![
                    SpecSpan { text: "  ·  "@, tone: TextTone::Plain },
                    SpecSpan { text: "Timed out!"@, tone: TextTone::Alert },
                ]
            } else {
                b
            }
        },
        None => base + seq![
            SpecSpan { text: " / "@, tone: TextTone::Dim },
            SpecSpan { text: "-- max"@, tone: TextTone::Dim },
        ],
    };
    SpecLine {
        spans: with_timeout + seq![
            SpecSpan { text: "  ·  "@, tone: TextTone::Plain },
            SpecSpan { text: "Esc to cancel"@, tone: TextTone::Dim },
        ],
        dim: false,
    }
}

fn enhancing_line(state: PromptEnhancementFooterState) -> (r: FooterLine)
    ensures
        r@ == spec_enhancing_line(state),
{
    let mut spans: Vec<FooterSpan> = Vec::new();
    let mut spin = String::new();
    push_char(&mut spin, spinner_char(state.elapsed_ms));
    proof {
        assert(spin@ =~= seq![spec_spinner_char(state.elapsed_ms)]);
    }
    spans.push(FooterSpan { text: spin, tone: TextTone::Plain });
    spans.push(span_str(" ", TextTone::Plain));
    spans.push(span_str("Enhancing prompt…", TextTone::Dim));
    spans.push(span_str(" ", TextTone::Plain));
    spans.push(FooterSpan { text: seconds_tenths(state.elapsed_ms, "s elapsed"), tone: TextTone::Dim });
    match state.timeout_ms {
        Option::Some(t) => {
            spans.push(span_str(" / ", TextTone::Dim));
            spans.push(FooterSpan { text: seconds_tenths(t, "s max"), tone: TextTone::Dim });
            if state.elapsed_ms >= t {
                spans.push(span_str("  ·  ", TextTone::Plain));
                spans.push(span_str("Timed out!", TextTone::Alert));
            }
        },
        Option::None => {
            spans.push(span_str(" / ", TextTone::Dim));
            spans.push(span_str("-- max", TextTone::Dim));
        },
    }
    spans.push(span_str("  ·  ", TextTone::Plain));
    spans.push(span_str("Esc to cancel", TextTone::Dim));
    let r = FooterLine { spans, dim: false };
    proof {
        assert(r@ =~~= spec_enhancing_line(state));
    }
    r
}

/// The enhancer key hints shown under the overlay when the feature is on.
pub open spec fn spec_enhancer_shortcut_lines(state: ShortcutsState) -> Seq<SpecLine> {
    if !state.prompt_enhancer_enabled {
        Seq::empty()
    } else {
        seq![
            SpecLine {
                spans: seq![
                    SpecSpan {
                        text: spec_key_label(
                            KeyBinding { code: KeyCode::Char('p'), ctrl: true, shift: false },
                        ),
                        tone: TextTone::Plain,
                    },
                    SpecSpan { text: " enhance prompt"@, tone: TextTone::Plain },
                ],
                dim: false,
            },
            SpecLine {
                spans: seq![
                    SpecSpan {
                        text: spec_key_label(
                            KeyBinding { code: KeyCode::Char('r'), ctrl: true, shift: false },
                        ),
                        tone: TextTone::Plain,
                    },
                    SpecSpan {
                        text: " restore original ("@ + (if state
                            .prompt_enhancement_history_available {
                            "available now"@
                        } else {
                            "after enhancement completes"@
                        }) + ")"@,
                        tone: TextTone::Dim,
                    },
                ],
                dim: false,
            },
            SpecLine {
                spans: seq![
                    SpecSpan {
                        text: spec_key_label(
                            KeyBinding { code: KeyCode::Char('u'), ctrl: true, shift: false },
                        ),
                        tone: TextTone::Plain,
                    },
                    SpecSpan { text: " clear composer"@, tone: TextTone::Plain },
                ],
                dim: false,
            },
        ]
    }
}

pub fn prompt_enhancer_shortcut_lines(state: ShortcutsState) -> (r: Vec<FooterLine>)
    ensures
        r.deep_view() == spec_enhancer_shortcut_lines(state),
{
    let mut lines: Vec<FooterLine> = Vec::new();
    if !state.prompt_enhancer_enabled {
        proof {
            assert(lines.deep_view() =~~= spec_enhancer_shortcut_lines(state));
        }
        return lines;
    }
    let mut spans0: Vec<FooterSpan> = Vec::new();
    spans0.push(FooterSpan { text: ctrl(KeyCode::Char('p')).label(), tone: TextTone::Plain });
    spans0.push(span_str(" enhance prompt", TextTone::Plain));
    lines.push(FooterLine { spans: spans0, dim: false });
    let mut restore = " restore original (".to_owned();
    if state.prompt_enhancement_history_available {
        restore.append("available now");
    } else {
        restore.append("after enhancement completes");
    }
    restore.append(")");
    let mut spans1: Vec<FooterSpan> = Vec::new();
    spans1.push(FooterSpan { text: ctrl(KeyCode::Char('r')).label(), tone: TextTone::Plain });
    spans1.push(FooterSpan { text: restore, tone: TextTone::Dim });
    lines.push(FooterLine { spans: spans1, dim: false });
    let mut spans2: Vec<FooterSpan> = Vec::new();
    spans2.push(FooterSpan { text: ctrl(KeyCode::Char('u')).label(), tone: TextTone::Plain });
    spans2.push(span_str(" clear composer", TextTone::Plain));
    lines.push(FooterLine { spans: spans2, dim: false });
    proof {
        assert(lines.deep_view() =~~= spec_enhancer_shortcut_lines(state));
    }
    lines
}

/// Clamps a count at what a machine word can hold.
pub open spec fn clamp_usize(n: int) -> int {
    if n > usize::MAX as int {
        usize::MAX as int
    } else {
        n
    }
}

/// The character count of a span sequence.
pub open spec fn spec_spans_width(spans: Seq<SpecSpan>) -> int
    decreases spans.len(),
{
    if spans.len() == 0 {
        0
    } else {
        spec_spans_width(spans.drop_last()) + spans.last().text.len()
    }
}

/// The display width of a line: its character count, saturating at what a
/// machine word can hold.
pub open spec fn spec_line_width(l: SpecLine) -> int {
    clamp_usize(spec_spans_width(l.spans))
}

fn line_width(l: &FooterLine) -> (w: usize)
    ensures
        w as int == spec_line_width(l@),
{
    let n = l.spans.len();
    let mut w: usize = 0;
    let mut i: usize = 0;
    while i < n
        invariant
            n == l.spans@.len(),
            i <= n,
            w as int == clamp_usize(spec_spans_width(l@.spans.take(i as int))),
        decreases n - i,
    {
        let x = l.spans[i].text.as_str().unicode_len();
        proof {
            assert(l@.spans.take(i as int + 1).drop_last() =~= l@.spans.take(i as int));
            assert(l@.spans.take(i as int + 1).last() == l@.spans[i as int]);
        }
        w = w.saturating_add(x);
        i += 1;
    }
    proof {
        assert(l@.spans.take(n as int) =~= l@.spans);
    }
    w
}

/// The widest left-column entry among the first `rows` rows.
pub open spec fn spec_col0_width(lines: Seq<SpecLine>, rows: int) -> int
    decreases rows,
{
    if rows <= 0 {
        0
    } else {
        let prev = spec_col0_width(lines, rows - 1);
        let w = spec_line_width(lines[2 * (rows - 1)]);
        if w > prev {
            w
        } else {
            prev
        }
    }
}

/// The entries padded with one empty line when their count is odd.
pub open spec fn spec_padded(entries: Seq<SpecLine>) -> Seq<SpecLine> {
    if entries.len() % 2 == 1 {
        entries.push(spec_empty_line())
    } else {
        entries
    }
}

/// One two-column row: the left entry, a spacer that aligns the right
/// column (left-column width plus padding, then the gap), the right entry.
pub open spec fn spec_column_row(padded: Seq<SpecLine>, target: int, r: int) -> SpecLine {
    let w = spec_line_width(padded[2 * r]);
    let d = if target >= w {
        target - w
    } else {
        0
    };
    let pad = clamp_usize(d + 4);
    SpecLine {
        spans: padded[2 * r].spans + seq![
            SpecSpan { text: Seq::new(pad as nat, |i: int| ' '), tone: TextTone::Plain },
        ] + padded[2 * r + 1].spans,
        dim: true,
    }
}

/// Entries laid out two to a row, the left column padded to its widest
/// entry plus four, a gap of four before the right column, each row dimmed.
pub open spec fn spec_build_columns(entries: Seq<SpecLine>) -> Seq<SpecLine> {
    if entries.len() == 0 {
        Seq::empty()
    } else {
        let padded = spec_padded(entries);
        let rows = padded.len() as int / 2;
        let target = clamp_usize(spec_col0_width(padded, rows) + 4);
        Seq::new(rows as nat, |r: int| spec_column_row(padded, target, r))
    }
}

fn clone_span(s: &FooterSpan) -> (r: FooterSpan)
    ensures
        r@ == s@,
{
    FooterSpan { text: s.text.clone(), tone: s.tone }
}

fn push_span(dst: &mut Vec<FooterSpan>, s: FooterSpan)
    ensures
        final(dst).deep_view() == old(dst).deep_view().push(s@),
{
    let ghost sv = s@;
    dst.push(s);
    proof {
        assert(dst.deep_view() =~= old(dst).deep_view().push(sv));
    }
}

fn push_line(dst: &mut Vec<FooterLine>, l: FooterLine)
    ensures
        final(dst).deep_view() == old(dst).deep_view().push(l@),
{
    let ghost lv = l@;
    dst.push(l);
    proof {
        assert(dst.deep_view() =~= old(dst).deep_view().push(lv));
    }
}

fn clone_spans_into(dst: &mut Vec<FooterSpan>, src: &Vec<FooterSpan>)
    ensures
        final(dst).deep_view() == old(dst).deep_view() + src.deep_view(),
{
    let n = src.len();
    let mut i: usize = 0;
    proof {
        assert(dst.deep_view() =~= dst.deep_view() + src.deep_view().take(0));
    }
    while i < n
        invariant
            n == src@.len(),
            i <= n,
            dst.deep_view() == old(dst).deep_view() + src.deep_view().take(i as int),
        decreases n - i,
    {
        let e = clone_span(&src[i]);
        proof {
            assert(src.deep_view()[i as int] == src@[i as int].deep_view());
        }
        push_span(dst, e);
        proof {
            assert((old(dst).deep_view() + src.deep_view().take(i as int)).push(
                src.deep_view()[i as int],
            ) =~= old(dst).deep_view() + src.deep_view().take(i as int + 1));
        }
        i += 1;
    }
    proof {
        assert(src.deep_view().take(n as int) =~= src.deep_view());
    }
}

/// Lays entries out in two columns, exactly as [`spec_build_columns`]
/// describes.
pub fn build_columns(entries: Vec<FooterLine>) -> (r: Vec<FooterLine>)
    ensures
        r.deep_view() == spec_build_columns(entries.deep_view()),
{
    if entries.is_empty() {
        let r: Vec<FooterLine> = Vec::new();
        proof {
            assert(r.deep_view() =~= spec_build_columns(entries.deep_view()));
        }
        return r;
    }
    let ghost orig = entries.deep_view();
    let mut padded = entries;
    if padded.len() % 2 == 1 {
        padded.push(empty_line());
    }
    proof {
        assert(padded.deep_view() =~= spec_padded(orig));
    }
    let rows = padded.len() / 2;
    let mut m: usize = 0;
    let mut k: usize = 0;
    while k < rows
        invariant
            padded.deep_view() == spec_padded(orig),
            padded@.len() == 2 * rows,
            2 * rows <= usize::MAX,
            k <= rows,
            m as int == spec_col0_width(spec_padded(orig), k as int),
        decreases rows - k,
    {
        let w = line_width(&padded[2 * k]);
        if w > m {
            m = w;
        }
        k += 1;
    }
    let target = m.saturating_add(4);
    let mut out: Vec<FooterLine> = Vec::new();
    let mut k: usize = 0;
    while k < rows
        invariant
            padded.deep_view() == spec_padded(orig),
            padded@.len() == 2 * rows,
            2 * rows <= usize::MAX,
            k <= rows,
            target as int == clamp_usize(spec_col0_width(spec_padded(orig), rows as int) + 4),
            out.deep_view().len() == k as int,
            forall|j: int|
                0 <= j < k ==> out.deep_view()[j] == spec_column_row(
                    spec_padded(orig),
                    target as int,
                    j,
                ),
        decreases rows - k,
    {
        let mut spans: Vec<FooterSpan> = Vec::new();
        clone_spans_into(&mut spans, &padded[2 * k].spans);
        let w = line_width(&padded[2 * k]);
        let pad = target.saturating_sub(w).saturating_add(4);
        push_span(&mut spans, FooterSpan { text: spaces(pad), tone: TextTone::Plain });
        clone_spans_into(&mut spans, &padded[2 * k + 1].spans);
        let line = FooterLine { spans, dim: true };
        proof {
            assert(padded.deep_view()[2 * k as int] == padded@[2 * k as int]@);
            assert(padded.deep_view()[2 * k as int + 1] == padded@[2 * k as int + 1]@);
            assert(line@.spans =~= spec_column_row(
                spec_padded(orig),
                target as int,
                k as int,
            ).spans);
            assert(line@ =~~= spec_column_row(spec_padded(orig), target as int, k as int));
        }
        push_line(&mut out, line);
        proof {
            assert(out.deep_view()[k as int] == spec_column_row(
                spec_padded(orig),
                target as int,
                k as int,
            ));
        }
        k += 1;
    }
    proof {
        assert(out.deep_view() =~= spec_build_columns(orig));
    }
    out
}

/// The eight overlay entries, in display order, with one separator before
/// the transcript hint.
pub open spec fn spec_overlay_entries(state: ShortcutsState) -> Seq<SpecLine> {
    let ds = spec_shortcuts();
    seq![
        spec_entry_or_empty(ds[0], state),
        spec_entry_or_empty(ds[1], state),
        spec_entry_or_empty(ds[2], state),
        spec_entry_or_empty(ds[3], state),
        spec_entry_or_empty(ds[4], state),
        spec_entry_or_empty(ds[5], state),
        spec_empty_line(),
        spec_entry_or_empty(ds[6], state),
    ]
}

/// The whole overlay: the shortcut table in two columns, and the enhancer
/// hints under it when the feature is on.
pub open spec fn spec_shortcut_overlay_lines(state: ShortcutsState) -> Seq<SpecLine> {
    let lines = spec_build_columns(spec_overlay_entries(state));
    if state.prompt_enhancer_enabled {
        lines + seq![spec_empty_line()] + spec_enhancer_shortcut_lines(state)
    } else {
        lines
    }
}

pub fn shortcut_overlay_lines(state: ShortcutsState) -> (r: Vec<FooterLine>)
    ensures
        r.deep_view() == spec_shortcut_overlay_lines(state),
{
    let descriptors = shortcuts();
    proof {
        assert(descriptors.deep_view().len() == 7);
        assert(descriptors@.len() == 7);
    }
    let mut entries: Vec<FooterLine> = Vec::new();
    push_line(&mut entries, entry_or_empty(&descriptors[0], state));
    push_line(&mut entries, entry_or_empty(&descriptors[1], state));
    push_line(&mut entries, entry_or_empty(&descriptors[2], state));
    push_line(&mut entries, entry_or_empty(&descriptors[3], state));
    push_line(&mut entries, entry_or_empty(&descriptors[4], state));
    push_line(&mut entries, entry_or_empty(&descriptors[5], state));
    push_line(&mut entries, empty_line());
    push_line(&mut entries, entry_or_empty(&descriptors[6], state));
    proof {
        assert forall|j: int| 0 <= j < 7 implies descriptors@[j]@ == spec_shortcuts()[j] by {
            assert(descriptors.deep_view()[j] == descriptors@[j]@);
        }
        assert(entries.deep_view() =~= spec_overlay_entries(state));
    }
    let mut lines = build_columns(entries);
    if state.prompt_enhancer_enabled {
        push_line(&mut lines, empty_line());
        let mut extra = prompt_enhancer_shortcut_lines(state);
        let ghost extra_view = extra.deep_view();
        let n = extra.len();
        let mut i: usize = 0;
        while i < n
            invariant
                n == extra@.len(),
                extra.deep_view() == extra_view,
                i <= n,
                lines.deep_view() == spec_build_columns(spec_overlay_entries(state)) + seq![
                    spec_empty_line(),
                ] + extra_view.take(i as int),
            decreases n - i,
        {
            let l = clone_line(&extra[i]);
            proof {
                assert(extra.deep_view()[i as int] == extra@[i as int]@);
            }
            push_line(&mut lines, l);
            proof {
                assert((spec_build_columns(spec_overlay_entries(state)) + seq![spec_empty_line()]
                    + extra_view.take(i as int)).push(extra_view[i as int]) =~= spec_build_columns(
                    spec_overlay_entries(state),
                ) + seq![spec_empty_line()] + extra_view.take(i as int + 1));
            }
            i += 1;
        }
        proof {
            assert(extra_view.take(n as int) =~= extra_view);
            assert(lines.deep_view() =~= spec_shortcut_overlay_lines(state));
        }
    }
    proof {
        assert(lines.deep_view() =~= spec_shortcut_overlay_lines(state));
    }
    lines
}

fn clone_line(l: &FooterLine) -> (r: FooterLine)
    ensures
        r@ == l@,
{
    let mut spans: Vec<FooterSpan> = Vec::new();
    clone_spans_into(&mut spans, &l.spans);
    let r = FooterLine { spans, dim: l.dim };
    proof {
        assert(r@ =~~= l@);
    }
    r
}

/// The slice of the props the shortcut table reads.
pub open spec fn spec_shortcuts_state(props: FooterProps) -> ShortcutsState {
    ShortcutsState {
        use_shift_enter_hint: props.use_shift_enter_hint,
        esc_backtrack_hint: props.esc_backtrack_hint,
        prompt_enhancer_enabled: props.prompt_enhancer_enabled,
        prompt_enhancement_history_available: props.prompt_enhancement_history_available,
    }
}

fn shortcuts_state(props: FooterProps) -> (r: ShortcutsState)
    ensures
        r == spec_shortcuts_state(props),
{
    ShortcutsState {
        use_shift_enter_hint: props.use_shift_enter_hint,
        esc_backtrack_hint: props.esc_backtrack_hint,
        prompt_enhancer_enabled: props.prompt_enhancer_enabled,
        prompt_enhancement_history_available: props.prompt_enhancement_history_available,
    }
}

/// Every footer line for the given props, top to bottom.
pub open spec fn spec_footer_lines(props: FooterProps) -> Seq<SpecLine> {
    match props.mode {
        FooterMode::CtrlCReminder => seq![spec_ctrl_c_reminder_line(props.is_task_running)],
        FooterMode::ShortcutPrompt => if props.is_task_running {
            seq![spec_context_window_line(props.context_window_percent)]
        } else {
            seq![spec_context_window_line(None)]
        },
        FooterMode::ShortcutOverlay => spec_shortcut_overlay_lines(spec_shortcuts_state(props)),
        FooterMode::EscHint => seq![spec_esc_hint_line(props.esc_backtrack_hint)],
        FooterMode::Enhancing => seq![
            spec_enhancing_line(
                match props.prompt_enhancement {
                    Some(s) => s,
                    None => PromptEnhancementFooterState { elapsed_ms: 0, timeout_ms: None },
                },
            ),
        ],
        FooterMode::Empty => Seq::empty(),
    }
}

pub fn footer_lines(props: FooterProps) -> (r: Vec<FooterLine>)
    ensures
        r.deep_view() == spec_footer_lines(props),
{
    let mut r: Vec<FooterLine> = Vec::new();
    match props.mode {
        FooterMode::CtrlCReminder => {
            push_line(&mut r, ctrl_c_reminder_line(props.is_task_running));
        },
        FooterMode::ShortcutPrompt => {
            if props.is_task_running {
                push_line(&mut r, context_window_line(props.context_window_percent));
            } else {
                push_line(&mut r, context_window_line(None));
            }
        },
        FooterMode::ShortcutOverlay => {
            r = shortcut_overlay_lines(shortcuts_state(props));
        },
        FooterMode::EscHint => {
            push_line(&mut r, esc_hint_line(props.esc_backtrack_hint));
        },
        FooterMode::Enhancing => {
            let state = match props.prompt_enhancement {
                Option::Some(s) => s,
                Option::None => default_prompt_enhancement_footer_state(),
            };
            push_line(&mut r, enhancing_line(state));
        },
        FooterMode::Empty => {},
    }
    proof {
        assert(r.deep_view() =~= spec_footer_lines(props));
    }
    r
}

proof fn lemma_footer_lines_len(props: FooterProps)
    ensures
        spec_footer_lines(props).len() <= 8,
{
    if props.mode is ShortcutOverlay {
        let state = spec_shortcuts_state(props);
        let entries = spec_overlay_entries(state);
        assert(entries.len() == 8);
        assert(spec_padded(entries) == entries);
        assert(spec_build_columns(entries).len() == 4);
        assert(spec_enhancer_shortcut_lines(state).len() <= 3);
    }
}

/// How many terminal rows the footer needs.
pub fn footer_height(props: FooterProps) -> (r: u16)
    ensures
        r as int == spec_footer_lines(props).len(),
{
    let lines = footer_lines(props);
    proof {
        lemma_footer_lines_len(props);
    }
    lines.len() as u16
}

} // verus!
