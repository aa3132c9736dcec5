//! Model of the host shell's window registry: the set of currently
//! open windows, each identified by a string label that is unique
//! within the running application, together with the window state that
//! the commands read and change.
//!
//! The registry is viewed abstractly as a map from labels to window
//! states; every operation's contract is stated over that map.

use vstd::prelude::*;
use vstd::pervasive::VecAdditionalExecFns;

verus! {

/// The states of a native window that the commands distinguish:
/// shown normally, minimized, or maximized.  A closed window is simply
/// absent from the registry.
#[derive(Clone, Copy, PartialEq, Eq, Structural, Debug)]
pub enum WindowState {
    Normal,
    Minimized,
    Maximized,
}

/// One open window: its identifying label and its current state.
pub struct Window {
    pub label: String,
    pub state: WindowState,
}

/// The state of the first window whose label is `label`, scanning the
/// sequence front to back; `None` when no window carries that label.
pub open spec fn spec_find(s: Seq<Window>, label: Seq<char>) -> Option<WindowState>
    decreases s.len(),
{
    if s.len() == 0 {
        None
    } else if s[0].label@ == label {
        Some(s[0].state)
    } else {
        spec_find(s.drop_first(), label)
    }
}

/// The abstract contents of a window sequence: the partial map that
/// sends each open label to the state of its window.
pub open spec fn window_map(s: Seq<Window>) -> Map<Seq<char>, WindowState> {
    Map::new(
        |label: Seq<char>| spec_find(s, label) is Some,
        |label: Seq<char>| spec_find(s, label)->Some_0,
    )
}

/// No two windows carry the same label.
pub open spec fn labels_unique(s: Seq<Window>) -> bool {
    forall|i: int, j: int| 0 <= i < j < s.len() ==> s[i].label@ != s[j].label@
}

proof fn lemma_find_characterizes(s: Seq<Window>, label: Seq<char>)
    ensures
        (spec_find(s, label) is Some) <==> (exists|i: int|
            0 <= i < s.len() && s[i].label@ == label),
    decreases s.len(),
{
    if s.len() == 0 {
    } else if s[0].label@ == label {
        assert(0 <= 0 < s.len() && s[0].label@ == label);
    } else {
        lemma_find_characterizes(s.drop_first(), label);
        if spec_find(s, label) is Some {
            let i = choose|i: int|
                0 <= i < s.drop_first().len() && s.drop_first()[i].label@ == label;
            assert(s[i + 1].label@ == label);
        }
        if exists|i: int| 0 <= i < s.len() && s[i].label@ == label {
            let i = choose|i: int| 0 <= i < s.len() && s[i].label@ == label;
            assert(s.drop_first()[i - 1].label@ == label);
        }
    }
}

proof fn lemma_find_at_first_match(s: Seq<Window>, label: Seq<char>, i: int)
    requires
        0 <= i < s.len(),
        s[i].label@ == label,
        forall|j: int| 0 <= j < i ==> s[j].label@ != label,
    ensures
        spec_find(s, label) == Some(s[i].state),
    decreases s.len(),
{
    if i > 0 {
        assert forall|j: int| 0 <= j < i - 1 implies s.drop_first()[j].label@ != label by {
            assert(s[j + 1].label@ != label);
        }
        lemma_find_at_first_match(s.drop_first(), label, i - 1);
    }
}

proof fn lemma_find_after_update(s: Seq<Window>, i: int, w: Window, label: Seq<char>)
    requires
        0 <= i < s.len(),
        w.label@ == s[i].label@,
        label != s[i].label@,
    ensures
        spec_find(s.update(i, w), label) == spec_find(s, label),
    decreases s.len(),
{
    let t = s.update(i, w);
    if i == 0 {
        assert(t.drop_first() =~= s.drop_first());
    } else {
        if s[0].label@ == label {
        } else {
            assert(t.drop_first() =~= s.drop_first().update(i - 1, w));
            lemma_find_after_update(s.drop_first(), i - 1, w, label);
        }
    }
}

proof fn lemma_find_after_remove_other(s: Seq<Window>, i: int, label: Seq<char>)
    requires
        0 <= i < s.len(),
        label != s[i].label@,
    ensures
        spec_find(s.remove(i), label) == spec_find(s, label),
    decreases s.len(),
{
    let t = s.remove(i);
    if i == 0 {
        assert(t =~= s.drop_first());
    } else {
        if s[0].label@ == label {
            assert(t[0] == s[0]);
        } else {
            assert(t.drop_first() =~= s.drop_first().remove(i - 1));
            lemma_find_after_remove_other(s.drop_first(), i - 1, label);
        }
    }
}

proof fn lemma_find_after_remove_self(s: Seq<Window>, i: int)
    requires
        0 <= i < s.len(),
        labels_unique(s),
    ensures
        spec_find(s.remove(i), s[i].label@) is None,
{
    let t = s.remove(i);
    lemma_find_characterizes(t, s[i].label@);
    assert forall|j: int| 0 <= j < t.len() implies t[j].label@ != s[i].label@ by {
        if j < i {
            assert(t[j] == s[j]);
        } else {
            assert(t[j] == s[j + 1]);
        }
    }
}

proof fn lemma_find_after_push(s: Seq<Window>, w: Window, label: Seq<char>)
    ensures
        spec_find(s.push(w), label) == (if spec_find(s, label) is Some {
            spec_find(s, label)
        } else if w.label@ == label {
            Some(w.state)
        } else {
            None::<WindowState>
        }),
    decreases s.len(),
{
    let t = s.push(w);
    assert(t.len() == s.len() + 1);
    if s.len() == 0 {
        assert(t[0] == w);
        assert(spec_find(s, label) is None);
        if w.label@ == label {
            assert(spec_find(t, label) == Some(w.state));
        } else {
            assert(t.drop_first() =~= Seq::<Window>::empty());
            assert(spec_find(t.drop_first(), label) is None);
            assert(spec_find(t, label) is None);
        }
    } else {
        assert(t[0] == s[0]);
        if s[0].label@ == label {
            assert(spec_find(t, label) == Some(s[0].state));
            assert(spec_find(s, label) == Some(s[0].state));
        } else {
            assert(t.drop_first() =~= s.drop_first().push(w));
            lemma_find_after_push(s.drop_first(), w, label);
            assert(spec_find(t, label) == spec_find(s.drop_first().push(w), label));
            assert(spec_find(s, label) == spec_find(s.drop_first(), label));
        }
    }
}

/// The registry of currently open windows.  It stands for the live
/// window set that the host shell owns; commands look windows up here
/// by label and apply their state transitions.
pub struct WindowRegistry {
    windows: Vec<Window>,
}

impl View for WindowRegistry {
    type V = Map<Seq<char>, WindowState>;

    closed spec fn view(&self) -> Map<Seq<char>, WindowState> {
        window_map(self.windows@)
    }
}

impl WindowRegistry {
    /// Well-formedness: window labels are unique, so a label picks out
    /// at most one window.
    pub closed spec fn wf(self) -> bool {
        labels_unique(self.windows@)
    }

    /// An empty registry: no windows are open.
    pub fn new() -> (r: WindowRegistry)
        ensures
            r.wf(),
            r@ == Map::<Seq<char>, WindowState>::empty(),
    {
        let r = WindowRegistry { windows: Vec::new() };
        proof {
            assert(r@ =~= Map::<Seq<char>, WindowState>::empty());
        }
        r
    }

    fn find_index(&self, label: &String) -> (r: Option<usize>)
        ensures
            match r {
                Some(i) => 0 <= i < self.windows@.len()
                    && self.windows@[i as int].label@ == label@
                    && (forall|j: int| 0 <= j < i ==> self.windows@[j].label@ != label@),
                None => forall|j: int|
                    0 <= j < self.windows@.len() ==> self.windows@[j].label@ != label@,
            },
    {
        let n = self.windows.len();
        let mut i: usize = 0;
        while i < n
            invariant
                i <= n,
                n == self.windows@.len(),
                forall|j: int| 0 <= j < i ==> self.windows@[j].label@ != label@,
            decreases n - i,
        {
            if self.windows[i].label == *label {
                return Some(i);
            }
            i += 1;
        }
        None
    }

    /// Opens a window under `label` in state `Normal`.  Labels are
    /// unique, so nothing happens when the label is already taken; the
    /// result says whether the window was opened.
    pub fn open_window(&mut self, label: String) -> (opened: bool)
        requires
            old(self).wf(),
        ensures
            final(self).wf(),
            opened == !old(self)@.contains_key(label@),
            opened ==> final(self)@ == old(self)@.insert(label@, WindowState::Normal),
            !opened ==> final(self)@ == old(self)@ && *final(self) == *old(self),
    {
        match self.find_index(&label) {
            Some(i) => {
                proof {
                    lemma_find_at_first_match(self.windows@, label@, i as int);
                }
                false
            }
            None => {
                proof {
                    lemma_find_characterizes(self.windows@, label@);
                }
                let ghost s = self.windows@;
                let w = Window { label, state: WindowState::Normal };
                let ghost l = w.label@;
                self.windows.push(w);
                proof {
                    let t = self.windows@;
                    assert forall|a: int, b: int| 0 <= a < b < t.len() implies
                        t[a].label@ != t[b].label@ by {
                        if b < s.len() {
                            assert(t[a] == s[a] && t[b] == s[b]);
                        } else {
                            assert(t[a] == s[a] && t[b] == w);
                        }
                    }
                    assert forall|l2: Seq<char>|
                        spec_find(t, l2) == (if spec_find(s, l2) is Some {
                            spec_find(s, l2)
                        } else if l == l2 {
                            Some(WindowState::Normal)
                        } else {
                            None::<WindowState>
                        }) by {
                        lemma_find_after_push(s, w, l2);
                    }
                    assert(window_map(t) =~= window_map(s).insert(l, WindowState::Normal));
                }
                true
            }
        }
    }

    /// The state of the window labelled `label`, or `None` when no
    /// such window is open.
    pub fn get_state(&self, label: &String) -> (r: Option<WindowState>)
        ensures
            r == (if self@.contains_key(label@) {
                Some(self@[label@])
            } else {
                None::<WindowState>
            }),
    {
        match self.find_index(label) {
            Some(i) => {
                let st = self.windows[i].state;
                proof {
                    lemma_find_at_first_match(self.windows@, label@, i as int);
                }
                Some(st)
            }
            None => {
                proof {
                    lemma_find_characterizes(self.windows@, label@);
                }
                None
            }
        }
    }

    /// Puts the window labelled `label` into `state`.  The result says
    /// whether such a window was open; when it is not, the registry is
    /// unchanged.
    pub fn set_state(&mut self, label: &String, state: WindowState) -> (found: bool)
        requires
            old(self).wf(),
        ensures
            final(self).wf(),
            found == old(self)@.contains_key(label@),
            found ==> final(self)@ == old(self)@.insert(label@, state),
            !found ==> final(self)@ == old(self)@ && *final(self) == *old(self),
    {
        match self.find_index(label) {
            Some(i) => {
                let ghost s = self.windows@;
                let ghost l = label@;
                let kept_label = self.windows[i].label.clone();
                let w = Window { label: kept_label, state };
                proof {
                    lemma_find_at_first_match(s, l, i as int);
                }
                self.windows.set(i, w);
                proof {
                    let t = self.windows@;
                    assert forall|a: int, b: int| 0 <= a < b < t.len() implies
                        t[a].label@ != t[b].label@ by {
                        assert(t[a].label@ == s[a].label@);
                        assert(t[b].label@ == s[b].label@);
                    }
                    lemma_find_at_first_match(t, l, i as int);
                    assert forall|l2: Seq<char>| l2 != l implies
                        spec_find(t, l2) == spec_find(s, l2) by {
                        lemma_find_after_update(s, i as int, w, l2);
                    }
                    assert(window_map(t) =~= window_map(s).insert(l, state));
                }
                true
            }
            None => {
                proof {
                    lemma_find_characterizes(self.windows@, label@);
                }
                false
            }
        }
    }

    /// Removes the window labelled `label` from the registry, the
    /// model of closing it.  The result says whether such a window was
    /// open; when it is not, the registry is unchanged.
    pub fn remove_window(&mut self, label: &String) -> (found: bool)
        requires
            old(self).wf(),
        ensures
            final(self).wf(),
            found == old(self)@.contains_key(label@),
            found ==> final(self)@ == old(self)@.remove(label@),
            !found ==> final(self)@ == old(self)@ && *final(self) == *old(self),
    {
        match self.find_index(label) {
            Some(i) => {
                let ghost s = self.windows@;
                let ghost l = label@;
                proof {
                    lemma_find_at_first_match(s, l, i as int);
                }
                self.windows.remove(i);
                proof {
                    let t = self.windows@;
                    assert forall|a: int, b: int| 0 <= a < b < t.len() implies
                        t[a].label@ != t[b].label@ by {
                        let a0: int = if a < i { a } else { a + 1 };
                        let b0: int = if b < i { b } else { b + 1 };
                        assert(t[a] == s[a0]);
                        assert(t[b] == s[b0]);
                    }
                    lemma_find_after_remove_self(s, i as int);
                    assert forall|l2: Seq<char>| l2 != l implies
                        spec_find(t, l2) == spec_find(s, l2) by {
                        lemma_find_after_remove_other(s, i as int, l2);
                    }
                    assert(window_map(t) =~= window_map(s).remove(l));
                }
                true
            }
            None => {
                proof {
                    lemma_find_characterizes(self.windows@, label@);
                }
                false
            }
        }
    }
}

} // verus!
