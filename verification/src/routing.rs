//! View selection: the root URL path shows the editor, every other path the
//! fallback ("not found") view. Paths are the UTF-8 bytes of the URL path.

use vstd::prelude::*;

verus! {

/// The two views of the application.
#[derive(PartialEq, Eq, Structural, Clone, Copy, Debug)]
pub enum AppView {
    Editor,
    Fallback,
}

/// The root path, "/".
pub open spec fn root_path() -> Seq<u8> {
    seq![47u8]
}

/// Which view a path selects: the editor for the root path (or the empty
/// path, as some hosts hand it over without the slash), the fallback for
/// every other path.
pub open spec fn view_for_path_spec(path: Seq<u8>) -> AppView {
    if path == root_path() || path == Seq::<u8>::empty() {
        AppView::Editor
    } else {
        AppView::Fallback
    }
}

/// Select the view for a URL path, per `view_for_path_spec`.
pub fn view_for_path(path: &Vec<u8>) -> (v: AppView)
    ensures
        v == view_for_path_spec(path@),
{
    if path.len() == 0 {
        proof {
            assert(path@ =~= Seq::<u8>::empty());
        }
        return AppView::Editor;
    }
    if path.len() == 1 && path[0] == 47 {
        proof {
            assert(path@ =~= root_path());
        }
        return AppView::Editor;
    }
    proof {
        assert(path@ != root_path()) by {
            if path@ == root_path() {
                assert(path@[0] == root_path()[0]);
            }
        }
        assert(path@.len() != 0);
    }
    AppView::Fallback
}

} // verus!
