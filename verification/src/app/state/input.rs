use crate::app::keys::{KeyCode, KeyEventKind, KeyInput};
use crate::text::{first_newline, lemma_first_newline_bound, strip_cr};
use tui_textarea::Key;
use vstd::prelude::*;

verus! {

/// The name for the lines that a text area holds.
pub uninterp spec fn text_area_lines(t: AppTextArea) -> Seq<Seq<char>>;

/// The name for the lines that a text area holds after it takes the key `k`.
pub uninterp spec fn edited_lines(t: AppTextArea, k: KeyInput) -> Seq<Seq<char>>;

/// The pieces of `s` between line feeds, each without one final carriage
/// return (so `\n` and `\r\n` both end a line); an empty text is one empty piece.
pub open spec fn newline_pieces(s: Seq<char>) -> Seq<Seq<char>>
    decreases s.len(),
{
    let k = first_newline(s);
    proof {
        lemma_first_newline_bound(s);
    }
    if k < s.len() {
        seq![strip_cr(s.subrange(0, k))] + newline_pieces(s.subrange(k + 1, s.len() as int))
    } else {
        seq![strip_cr(s)]
    }
}

/// An editable text area: the terminal text-editing widget of
/// `tui_textarea`, held whole in a private field; what is known of it is its
/// lines, `text_area_lines`.
#[verifier::external_body]
#[derive(Debug)]
pub struct AppTextArea {
    area: tui_textarea::TextArea<'static>,
}

impl AppTextArea {
    /// The lines of text held.
    pub open spec fn lines_view(&self) -> Seq<Seq<char>> {
        text_area_lines(*self)
    }

    /// An empty text area.
    ///
    /// Calls `TextArea::default`, which holds one empty line.
    #[verifier::external_body]
    pub fn empty() -> (res: Self)
        ensures
            text_area_lines(res) == seq![Seq::<char>::empty()],
    {
        AppTextArea { area: tui_textarea::TextArea::default() }
    }

    /// A text area holding `s`.
    ///
    /// Calls `TextArea::default` and then `TextArea::insert_str`, which
    /// inserts the text at the cursor and treats `\n` and `\r\n` as line
    /// ends; into the empty area this gives the pieces of `s`.
    #[verifier::external_body]
    pub fn with_text(s: &str) -> (res: Self)
        ensures
            text_area_lines(res) == newline_pieces(s@),
    {
        let mut area = tui_textarea::TextArea::default();
        area.insert_str(s);
        AppTextArea { area }
    }

    /// The lines of text held.
    ///
    /// Calls `TextArea::lines`.
    #[verifier::external_body]
    pub fn lines(&self) -> (res: Vec<String>)
        ensures
            res@.map_values(|l: String| l@) == text_area_lines(*self),
    {
        self.area.lines().to_vec()
    }

    /// Edits the text with a pressed or repeated key, as the widget's own key
    /// bindings do.
    ///
    /// Calls `TextArea::input` with the widget's `Input` for the key: its code
    /// (BackTab, Insert, Null and the other keys become `Key::Null`, as the
    /// widget's own conversion of terminal key events makes them) and its
    /// Ctrl, Alt and Shift flags. The lines it leaves are named
    /// `edited_lines`; the cursor and the history of edits, which it changes
    /// too, are not stated.
    #[verifier::external_body]
    pub fn input(&mut self, key: KeyInput)
        requires
            key.kind != KeyEventKind::Release,
        ensures
            text_area_lines(*final(self)) == edited_lines(*old(self), key),
    {
        let code = match key.code {
            KeyCode::Char(c) => Key::Char(c), KeyCode::F(n) => Key::F(n),
            KeyCode::Backspace => Key::Backspace, KeyCode::Enter => Key::Enter,
            KeyCode::Left => Key::Left, KeyCode::Right => Key::Right, KeyCode::Up => Key::Up,
            KeyCode::Down => Key::Down, KeyCode::Tab => Key::Tab, KeyCode::Delete => Key::Delete,
            KeyCode::Home => Key::Home, KeyCode::End => Key::End, KeyCode::PageUp => Key::PageUp,
            KeyCode::PageDown => Key::PageDown, KeyCode::Esc => Key::Esc, _ => Key::Null,
        };
        let m = key.modifiers;
        self.area.input(tui_textarea::Input { key: code, ctrl: m.control, alt: m.alt, shift: m.shift });
    }
}

/// A text input being edited.
#[derive(Debug)]
pub struct InputState {
    pub text_area: AppTextArea,
}

} // verus!
