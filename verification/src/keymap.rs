//! Keyboard-shortcut dispatch: which editor action a key press triggers.
//! Key names are the UTF-8 bytes of the platform's key string ("s", "o",
//! "Tab", "Enter").

use vstd::prelude::*;

verus! {

/// What the editor does in response to a key press. Every action suppresses
/// the platform's default handling of the key; `NoAction` leaves the key to
/// the platform.
#[derive(PartialEq, Eq, Structural, Clone, Copy, Debug)]
pub enum EditorAction {
    /// Ctrl+S: offer the buffer as a download.
    ExportFile,
    /// Ctrl+O: open the file picker.
    OpenFilePicker,
    /// Tab: replace the selection with one indent unit.
    InsertIndent,
    /// Enter: insert a newline with the carried (and maybe extended) indent.
    InsertNewline,
    /// Anything else.
    NoAction,
}

/// The key name "s".
pub open spec fn key_s() -> Seq<u8> {
    seq![115u8]
}

/// The key name "o".
pub open spec fn key_o() -> Seq<u8> {
    seq![111u8]
}

/// The key name "Tab".
pub open spec fn key_tab() -> Seq<u8> {
    seq![84u8, 97u8, 98u8]
}

/// The key name "Enter".
pub open spec fn key_enter() -> Seq<u8> {
    seq![69u8, 110u8, 116u8, 101u8, 114u8]
}

/// Which action a key press triggers: Ctrl+S exports, Ctrl+O opens the file
/// picker, Tab indents and Enter breaks the line (each with or without Ctrl),
/// and every other key is left alone.
pub open spec fn action_for_key_spec(ctrl: bool, key: Seq<u8>) -> EditorAction {
    if ctrl && key == key_s() {
        EditorAction::ExportFile
    } else if ctrl && key == key_o() {
        EditorAction::OpenFilePicker
    } else if key == key_tab() {
        EditorAction::InsertIndent
    } else if key == key_enter() {
        EditorAction::InsertNewline
    } else {
        EditorAction::NoAction
    }
}

fn bytes_eq(a: &Vec<u8>, b: &Vec<u8>) -> (r: bool)
    ensures
        r == (a@ == b@),
{
    if a.len() != b.len() {
        return false;
    }
    let mut i: usize = 0;
    while i < a.len()
        invariant
            i <= a@.len(),
            a@.len() == b@.len(),
            a@.subrange(0, i as int) == b@.subrange(0, i as int),
        decreases a@.len() - i,
    {
        if a[i] != b[i] {
            proof {
                assert(a@ != b@) by {
                    if a@ == b@ {
                        assert(a@[i as int] == b@[i as int]);
                    }
                }
            }
            return false;
        }
        proof {
            assert(a@.subrange(0, i + 1) =~= a@.subrange(0, i as int).push(a@[i as int]));
            assert(b@.subrange(0, i + 1) =~= b@.subrange(0, i as int).push(b@[i as int]));
        }
        i += 1;
    }
    proof {
        assert(a@ =~= a@.subrange(0, a@.len() as int));
        assert(b@ =~= b@.subrange(0, b@.len() as int));
    }
    true
}

/// Map a key press to the editor action it triggers, per
/// `action_for_key_spec`.
pub fn action_for_key(ctrl: bool, key: &Vec<u8>) -> (a: EditorAction)
    ensures
        a == action_for_key_spec(ctrl, key@),
{
    let mut pat_s: Vec<u8> = Vec::new();
    pat_s.push(115);
    let mut pat_o: Vec<u8> = Vec::new();
    pat_o.push(111);
    let mut pat_tab: Vec<u8> = Vec::new();
    pat_tab.push(84);
    pat_tab.push(97);
    pat_tab.push(98);
    let mut pat_enter: Vec<u8> = Vec::new();
    pat_enter.push(69);
    pat_enter.push(110);
    pat_enter.push(116);
    pat_enter.push(101);
    pat_enter.push(114);
    proof {
        assert(pat_s@ =~= key_s());
        assert(pat_o@ =~= key_o());
        assert(pat_tab@ =~= key_tab());
        assert(pat_enter@ =~= key_enter());
    }
    if ctrl && bytes_eq(key, &pat_s) {
        EditorAction::ExportFile
    } else if ctrl && bytes_eq(key, &pat_o) {
        EditorAction::OpenFilePicker
    } else if bytes_eq(key, &pat_tab) {
        EditorAction::InsertIndent
    } else if bytes_eq(key, &pat_enter) {
        EditorAction::InsertNewline
    } else {
        EditorAction::NoAction
    }
}

} // verus!
