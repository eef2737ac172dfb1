//! The directory view: owns the sorted entry list and the selection state,
//! dispatches per-entry input events into the state machine while keeping
//! each button's flags in step with it, and emits the outward requests — a
//! navigation request when an entry was activated, a rename request when an
//! edit was committed under a new name. Entry data only changes through
//! `apply_rename`, which the caller invokes after the filesystem
//! collaborator reported success; a rejected rename therefore leaves every
//! entry untouched.

use vstd::prelude::*;

verus! {

use crate::button::RSFMButtonState;
use crate::fs::{compute_renamed_path, renamed_path, valid_name, EntryKind, FileData};
use crate::ordering::{entries_sorted, sort_entries};
use crate::selection::{
    event_index,
    frame_start,
    lemma_sel_run_snoc,
    sel_run,
    sel_step,
    InputEvent,
    SelectionState,
};
use crate::text::str_eq;
use vstd::multiset::group_multiset_axioms;
use vstd::seq_lib::group_to_multiset_ensures;

/// The icon edge length a directory view renders its entries at.
#[derive(Clone, Copy, PartialEq, Eq, Structural, Debug)]
pub enum DirViewIconSize {
    Small,
    Medium,
    Large,
}

impl DirViewIconSize {
    /// Icon edge length in pixels.
    pub open spec fn spec_side(self) -> u32 {
        match self {
            DirViewIconSize::Small => 50,
            DirViewIconSize::Medium => 75,
            DirViewIconSize::Large => 100,
        }
    }

    /// Exec form of `spec_side`.
    pub fn side(&self) -> (r: u32)
        ensures
            r == self.spec_side(),
    {
        match self {
            DirViewIconSize::Small => 50,
            DirViewIconSize::Medium => 75,
            DirViewIconSize::Large => 100,
        }
    }
}

/// One entry's button: the widget state plus the entry it shows.
pub struct DirViewButtonState {
    pub rsfm: RSFMButtonState,
    pub file_data: FileData,
}

impl DirViewButtonState {
    pub fn new(rsfm: RSFMButtonState, file_data: FileData) -> (r: Self)
        ensures
            r.rsfm == rsfm,
            r.file_data == file_data,
    {
        DirViewButtonState { rsfm, file_data }
    }
}

/// A rename the view asks the filesystem collaborator to carry out. The
/// view's own state is not touched until the collaborator reports success
/// and `apply_rename` is called.
pub struct RenameRequest {
    pub index: usize,
    pub old_path: String,
    pub new_path: String,
    pub new_name: String,
}

/// A navigate-into request, emitted when an entry was activated. The caller
/// decides what opening a directory or a file means.
pub struct NavigateRequest {
    pub path: String,
    pub kind: EntryKind,
}

/// State of one open directory tab.
pub struct DirViewState {
    pub file_data: FileData,
    pub buttons: Vec<DirViewButtonState>,
    pub selection: SelectionState,
    pub icon_size: DirViewIconSize,
}

impl DirViewState {
    /// The entries in display order.
    pub open spec fn entries(self) -> Seq<FileData> {
        self.buttons@.map_values(|b: DirViewButtonState| b.file_data)
    }

    /// An optional index that, when present, points into the button list.
    pub open spec fn index_ok(self, oi: Option<usize>) -> bool {
        match oi {
            Option::Some(k) => k < self.buttons@.len(),
            Option::None => true,
        }
    }

    /// Well-formedness: the machine's indices point into the list, every
    /// entry is consistent, every button's label holds its entry's name,
    /// and each button's selected and editing flags mirror the machine —
    /// which is what makes the selection single by construction.
    pub open spec fn wf(self) -> bool {
        &&& self.file_data.wf()
        &&& self.index_ok(self.selection.selected_index)
        &&& self.index_ok(self.selection.editing_index)
        &&& self.index_ok(self.selection.activated_index)
        &&& forall|i: int|
            0 <= i < self.buttons@.len() ==> (#[trigger] self.buttons@[i]).file_data.wf()
        &&& forall|i: int|
            0 <= i < self.buttons@.len() ==> match (#[trigger] self.buttons@[i]).rsfm.text {
                Option::Some(t) => t@ == self.buttons@[i].file_data.name@,
                Option::None => false,
            }
        &&& forall|i: usize|
            i < self.buttons@.len() ==> ((#[trigger] self.buttons@[i as int]).rsfm.selected
                <==> self.selection.selected_index == Option::Some(i))
        &&& forall|i: usize|
            i < self.buttons@.len() ==> ((#[trigger] self.buttons@[i as int]).rsfm.editing_text
                <==> self.selection.editing_index == Option::Some(i))
    }

    /// Opens a directory: sorts the listed children into display order,
    /// gives each a button labelled with its name, and starts with nothing
    /// selected, nothing edited and nothing activated.
    pub fn new(file_data: FileData, children: Vec<FileData>) -> (r: DirViewState)
        requires
            file_data.wf(),
            forall|i: int| 0 <= i < children@.len() ==> (#[trigger] children@[i]).wf(),
        ensures
            r.wf(),
            r.file_data == file_data,
            r.selection.selected_index is None,
            r.selection.editing_index is None,
            r.selection.activated_index is None,
            entries_sorted(r.entries()),
            r.entries().to_multiset() == children@.to_multiset(),
            r.icon_size == DirViewIconSize::Small,
            forall|i: int|
                0 <= i < r.buttons@.len() ==> !(#[trigger] r.buttons@[i]).rsfm.selected
                    && !r.buttons@[i].rsfm.editing_text && !r.buttons@[i].rsfm.double_clicked,
    {
        let ghost input = children@;
        let mut sorted = sort_entries(children);
        let ghost full = sorted@;
        let mut buttons: Vec<DirViewButtonState> = Vec::new();
        proof {
            broadcast use group_multiset_axioms, group_to_multiset_ensures;

            assert(sorted@ =~= full.skip(0));
            assert forall|i: int| 0 <= i < full.len() implies (#[trigger] full[i]).wf() by {
                assert(full.contains(full[i]));
                assert(full.to_multiset().count(full[i]) > 0);
                assert(input.contains(full[i]));
                let w = choose|w: int| 0 <= w < input.len() && input[w] == full[i];
                assert(input[w].wf());
            }
        }
        while sorted.len() > 0
            invariant
                buttons@.len() + sorted@.len() == full.len(),
                sorted@ == full.skip(buttons@.len() as int),
                forall|i: int| 0 <= i < full.len() ==> (#[trigger] full[i]).wf(),
                forall|i: int|
                    0 <= i < buttons@.len() ==> (#[trigger] buttons@[i]).file_data == full[i],
                forall|i: int|
                    0 <= i < buttons@.len() ==> !(#[trigger] buttons@[i]).rsfm.selected
                        && !buttons@[i].rsfm.editing_text && !buttons@[i].rsfm.double_clicked,
                forall|i: int|
                    0 <= i < buttons@.len() ==> match (#[trigger] buttons@[i]).rsfm.text {
                        Option::Some(t) => t@ == buttons@[i].file_data.name@,
                        Option::None => false,
                    },
            decreases sorted.len(),
        {
            let ghost k = buttons@.len();
            let fd = sorted.remove(0);
            proof {
                assert(fd == full[k as int]);
                assert(sorted@ =~= full.skip(k as int + 1));
            }
            let text = fd.name.clone();
            let rsfm = RSFMButtonState::default().with_text(text);
            let b = DirViewButtonState::new(rsfm, fd);
            buttons.push(b);
        }
        let selection = SelectionState::new();
        let r = DirViewState {
            file_data,
            buttons,
            selection,
            icon_size: DirViewIconSize::Small,
        };
        proof {
            assert(r.entries() =~= full);
        }
        r
    }

    pub fn file_data(&self) -> (r: &FileData)
        ensures
            r == self.file_data,
    {
        &self.file_data
    }

    /// Starts a frame: clears the one-frame activation pulse and nothing
    /// else.
    pub fn begin_frame(&mut self)
        requires
            old(self).wf(),
        ensures
            final(self).wf(),
            final(self).selection == frame_start(old(self).selection),
            final(self).buttons == old(self).buttons,
            final(self).file_data == old(self).file_data,
            final(self).icon_size == old(self).icon_size,
    {
        self.selection.begin_frame();
    }

    /// Feeds one event into the machine and mirrors the outcome onto the
    /// buttons' flags. Entry data never changes here; a text commit under a
    /// changed name only yields the request the caller should hand to the
    /// filesystem collaborator.
    pub fn process_event(&mut self, e: &InputEvent) -> (r: Option<RenameRequest>)
        requires
            old(self).wf(),
            event_index(*e) < old(self).buttons@.len(),
        ensures
            final(self).wf(),
            final(self).selection == sel_step(old(self).selection, *e),
            final(self).file_data == old(self).file_data,
            final(self).icon_size == old(self).icon_size,
            final(self).buttons@.len() == old(self).buttons@.len(),
            final(self).entries() == old(self).entries(),
            forall|i: int|
                0 <= i < old(self).buttons@.len() ==> (#[trigger] final(self).buttons@[i]).rsfm.text == old(self).buttons@[i].rsfm.text,
            (match *e {
                InputEvent::TextCommitted(i, t) => {
                    &&& (r is Some <==> t@ != old(self).buttons@[i as int].file_data.name@)
                    &&& (r matches Some(req) ==> req.index == i && req.old_path@ == old(self).buttons@[i as int].file_data.path@ && req.new_name@ == t@
                        && req.new_path@ == renamed_path(
                        old(self).buttons@[i as int].file_data.path@,
                        t@,
                    ))
                },
                _ => r is None,
            }),
    {
        match e {
            InputEvent::Clicked(i) => {
                self.handle_clicked(*i);
                None
            },
            InputEvent::DoubleClickedIcon(i) => {
                self.handle_double_clicked_icon(*i);
                None
            },
            InputEvent::DoubleClickedLabel(i) => {
                self.handle_double_clicked_label(*i);
                None
            },
            InputEvent::EditLostFocus(i) => {
                self.handle_edit_lost_focus(*i);
                None
            },
            InputEvent::TextCommitted(i, t) => self.handle_text_committed(*i, t),
        }
    }

    /// A click selects its entry, deselecting any other, and leaves edit
    /// mode — unless the click landed on the entry being edited.
    fn handle_clicked(&mut self, i: usize)
        requires
            old(self).wf(),
            i < old(self).buttons@.len(),
        ensures
            final(self).wf(),
            final(self).selection == sel_step(old(self).selection, InputEvent::Clicked(i)),
            final(self).file_data == old(self).file_data,
            final(self).icon_size == old(self).icon_size,
            final(self).entries() == old(self).entries(),
            final(self).buttons@.len() == old(self).buttons@.len(),
            forall|j: int|
                0 <= j < old(self).buttons@.len() ==> (#[trigger] final(self).buttons@[j]).rsfm.text == old(self).buttons@[j].rsfm.text,
    {
        let editing_here = match self.selection.editing_index {
            Some(k) => k == i,
            None => false,
        };
        if !editing_here {
            if let Some(k) = self.selection.editing_index {
                set_editing_flag(&mut self.buttons, k, false);
            }
            if let Some(j) = self.selection.selected_index {
                if j != i {
                    set_selected_flag(&mut self.buttons, j, false);
                }
            }
            set_selected_flag(&mut self.buttons, i, true);
            self.selection.clicked(i);
        }
        proof {
            assert(self.entries() =~= old(self).entries());
        }
    }

    /// An icon double-click activates its entry and wins over a pending
    /// edit of the same entry; the selection stays as it is.
    fn handle_double_clicked_icon(&mut self, i: usize)
        requires
            old(self).wf(),
            i < old(self).buttons@.len(),
        ensures
            final(self).wf(),
            final(self).selection == sel_step(
                old(self).selection,
                InputEvent::DoubleClickedIcon(i),
            ),
            final(self).file_data == old(self).file_data,
            final(self).icon_size == old(self).icon_size,
            final(self).entries() == old(self).entries(),
            final(self).buttons@.len() == old(self).buttons@.len(),
            forall|j: int|
                0 <= j < old(self).buttons@.len() ==> (#[trigger] final(self).buttons@[j]).rsfm.text == old(self).buttons@[j].rsfm.text,
    {
        let editing_here = match self.selection.editing_index {
            Some(k) => k == i,
            None => false,
        };
        if editing_here {
            set_editing_flag(&mut self.buttons, i, false);
        }
        self.selection.double_clicked_icon(i);
        proof {
            assert(self.entries() =~= old(self).entries());
        }
    }

    /// A label double-click enters edit mode for its entry.
    fn handle_double_clicked_label(&mut self, i: usize)
        requires
            old(self).wf(),
            i < old(self).buttons@.len(),
        ensures
            final(self).wf(),
            final(self).selection == sel_step(
                old(self).selection,
                InputEvent::DoubleClickedLabel(i),
            ),
            final(self).file_data == old(self).file_data,
            final(self).icon_size == old(self).icon_size,
            final(self).entries() == old(self).entries(),
            final(self).buttons@.len() == old(self).buttons@.len(),
            forall|j: int|
                0 <= j < old(self).buttons@.len() ==> (#[trigger] final(self).buttons@[j]).rsfm.text == old(self).buttons@[j].rsfm.text,
    {
        if let Some(k) = self.selection.editing_index {
            if k != i {
                set_editing_flag(&mut self.buttons, k, false);
            }
        }
        set_editing_flag(&mut self.buttons, i, true);
        self.selection.double_clicked_label(i);
        proof {
            assert(self.entries() =~= old(self).entries());
        }
    }

    /// Losing focus without a commit leaves edit mode for that entry.
    fn handle_edit_lost_focus(&mut self, i: usize)
        requires
            old(self).wf(),
            i < old(self).buttons@.len(),
        ensures
            final(self).wf(),
            final(self).selection == sel_step(old(self).selection, InputEvent::EditLostFocus(i)),
            final(self).file_data == old(self).file_data,
            final(self).icon_size == old(self).icon_size,
            final(self).entries() == old(self).entries(),
            final(self).buttons@.len() == old(self).buttons@.len(),
            forall|j: int|
                0 <= j < old(self).buttons@.len() ==> (#[trigger] final(self).buttons@[j]).rsfm.text == old(self).buttons@[j].rsfm.text,
    {
        let editing_here = match self.selection.editing_index {
            Some(k) => k == i,
            None => false,
        };
        if editing_here {
            set_editing_flag(&mut self.buttons, i, false);
        }
        self.selection.edit_lost_focus(i);
        proof {
            assert(self.entries() =~= old(self).entries());
        }
    }

    /// A commit leaves edit mode and — when the text differs from the
    /// entry's current name — yields the rename request. The entry itself
    /// keeps its old name and path: they change only in `apply_rename`,
    /// after the collaborator reported success.
    fn handle_text_committed(&mut self, i: usize, t: &String) -> (r: Option<RenameRequest>)
        requires
            old(self).wf(),
            i < old(self).buttons@.len(),
        ensures
            final(self).wf(),
            forall|s: String| final(self).selection == sel_step(
                old(self).selection,
                InputEvent::TextCommitted(i, s),
            ),
            final(self).file_data == old(self).file_data,
            final(self).icon_size == old(self).icon_size,
            final(self).entries() == old(self).entries(),
            final(self).buttons@.len() == old(self).buttons@.len(),
            forall|j: int|
                0 <= j < old(self).buttons@.len() ==> (#[trigger] final(self).buttons@[j]).rsfm.text == old(self).buttons@[j].rsfm.text,
            r is Some <==> t@ != old(self).buttons@[i as int].file_data.name@,
            r matches Some(req) ==> req.index == i && req.old_path@ == old(self).buttons@[i as int].file_data.path@ && req.new_name@ == t@ && req.new_path@
                == renamed_path(old(self).buttons@[i as int].file_data.path@, t@),
    {
        if let Some(k) = self.selection.editing_index {
            set_editing_flag(&mut self.buttons, k, false);
        }
        self.selection.text_committed(i);
        let same = str_eq(t.as_str(), self.buttons[i].file_data.name.as_str());
        let r = if same {
            None
        } else {
            let old_path = self.buttons[i].file_data.path.clone();
            let new_path = compute_renamed_path(self.buttons[i].file_data.path.as_str(), t.as_str());
            Some(
                RenameRequest {
                    index: i,
                    old_path,
                    new_path,
                    new_name: t.clone(),
                },
            )
        };
        proof {
            assert(self.entries() =~= old(self).entries());
        }
        r
    }

    /// Applies a rename the filesystem collaborator has carried out: the
    /// entry's path and name change in place, its button label follows, and
    /// nothing else — in particular the list is not re-sorted.
    pub fn apply_rename(&mut self, i: usize, new_name: &str)
        requires
            old(self).wf(),
            i < old(self).buttons@.len(),
            valid_name(new_name@),
        ensures
            final(self).wf(),
            final(self).selection == old(self).selection,
            final(self).file_data == old(self).file_data,
            final(self).icon_size == old(self).icon_size,
            final(self).buttons@.len() == old(self).buttons@.len(),
            forall|j: int|
                0 <= j < old(self).buttons@.len() && j != i ==> final(self).buttons@[j] == old(self).buttons@[j],
            final(self).buttons@[i as int].file_data.path@ == renamed_path(
                old(self).buttons@[i as int].file_data.path@,
                new_name@,
            ),
            final(self).buttons@[i as int].file_data.name@ == new_name@,
            final(self).buttons@[i as int].file_data.kind == old(self).buttons@[i as int].file_data.kind,
            final(self).buttons@[i as int].file_data.link_target == old(self).buttons@[i as int].file_data.link_target,
            final(self).buttons@[i as int].rsfm.selected == old(self).buttons@[i as int].rsfm.selected,
            final(self).buttons@[i as int].rsfm.editing_text == old(self).buttons@[i as int].rsfm.editing_text,
    {
        let ghost pre = self.buttons@;
        let mut b = self.buttons.remove(i);
        b.file_data.rename(new_name);
        b.rsfm.text = Some(new_name.to_owned());
        let ghost bv = b;
        self.buttons.insert(i, b);
        proof {
            assert(self.buttons@ =~= pre.update(i as int, bv));
        }
    }

    /// The navigation request of the current frame: the activated entry's
    /// path and kind, or nothing when no activation fired.
    pub fn take_navigation(&self) -> (r: Option<NavigateRequest>)
        requires
            self.wf(),
        ensures
            (match self.selection.activated_index {
                Option::Some(i) => r matches Some(n) && n.path@
                    == self.buttons@[i as int].file_data.path@ && n.kind
                    == self.buttons@[i as int].file_data.kind,
                Option::None => r is None,
            }),
    {
        match self.selection.activated_index {
            Some(i) => {
                let path = self.buttons[i].file_data.path.clone();
                let kind = self.buttons[i].file_data.file_ty();
                Some(NavigateRequest { path, kind })
            },
            None => None,
        }
    }

    /// Runs one frame: clears the activation pulse, feeds every event
    /// through the machine in order, and collects the rename requests the
    /// commits produced. Entry data is untouched whatever the events were.
    pub fn process_frame(&mut self, events: &Vec<InputEvent>) -> (renames: Vec<RenameRequest>)
        requires
            old(self).wf(),
            forall|k: int|
                0 <= k < events@.len() ==> event_index(#[trigger] events@[k]) < old(self).buttons@.len(),
        ensures
            final(self).wf(),
            final(self).selection == sel_run(frame_start(old(self).selection), events@),
            final(self).file_data == old(self).file_data,
            final(self).icon_size == old(self).icon_size,
            final(self).buttons@.len() == old(self).buttons@.len(),
            final(self).entries() == old(self).entries(),
            renames@.map_values(|q: RenameRequest| (q.index, q.new_name@)) == expected_renames(
                old(self).entries(),
                events@,
            ),
            forall|k: int|
                0 <= k < renames@.len() ==> {
                    let q = #[trigger] renames@[k];
                    &&& q.index < old(self).buttons@.len()
                    &&& q.old_path@ == old(self).entries()[q.index as int].path@
                    &&& q.new_path@ == renamed_path(
                        old(self).entries()[q.index as int].path@,
                        q.new_name@,
                    )
                },
    {
        self.begin_frame();
        let ghost start_sel = self.selection;
        let ghost entries0 = self.entries();
        let ghost len0 = self.buttons@.len();
        let ghost fd0 = self.file_data;
        let ghost is0 = self.icon_size;
        let mut renames: Vec<RenameRequest> = Vec::new();
        let mut idx: usize = 0;
        proof {
            assert(events@.take(0) =~= Seq::<InputEvent>::empty());
        }
        while idx < events.len()
            invariant
                self.wf(),
                idx <= events@.len(),
                self.buttons@.len() == len0,
                self.entries() == entries0,
                self.file_data == fd0,
                self.icon_size == is0,
                self.selection == sel_run(start_sel, events@.take(idx as int)),
                renames@.map_values(|q: RenameRequest| (q.index, q.new_name@))
                    == expected_renames(entries0, events@.take(idx as int)),
                forall|k: int|
                    0 <= k < renames@.len() ==> {
                        let q = #[trigger] renames@[k];
                        &&& q.index < len0
                        &&& q.old_path@ == entries0[q.index as int].path@
                        &&& q.new_path@ == renamed_path(entries0[q.index as int].path@, q.new_name@)
                    },
                forall|k: int|
                    0 <= k < events@.len() ==> event_index(#[trigger] events@[k]) < len0,
            decreases events@.len() - idx,
        {
            let ghost pre_renames = renames@;
            let ghost pre_entries = self.entries();
            let e = &events[idx];
            let req = self.process_event(e);
            if let Some(req) = req {
                renames.push(req);
            }
            proof {
                lemma_sel_run_snoc(start_sel, events@.take(idx as int), events@[idx as int]);
                lemma_expected_renames_snoc(entries0, events@.take(idx as int), events@[idx as int]);
                assert(events@.take(idx as int + 1) =~= events@.take(idx as int).push(
                    events@[idx as int],
                ));
                let pairs = |q: RenameRequest| (q.index, q.new_name@);
                let ev = events@[idx as int];
                assert(seq![ev][0] == ev);
                assert(seq![ev].drop_first() =~= Seq::<InputEvent>::empty());
                assert(expected_renames(entries0, Seq::<InputEvent>::empty())
                    =~= Seq::<(usize, Seq<char>)>::empty());
                match events@[idx as int] {
                    InputEvent::TextCommitted(i, t) => {
                        assert(pre_entries[i as int] == self.buttons@[i as int].file_data);
                        if t@ != entries0[i as int].name@ {
                            assert(expected_renames(entries0, seq![events@[idx as int]]) =~= seq![
                                (i, t@),
                            ]);
                            assert(renames@.map_values(pairs) =~= pre_renames.map_values(
                                pairs,
                            ).push((i, t@)));
                        } else {
                            assert(expected_renames(entries0, seq![events@[idx as int]])
                                =~= Seq::<(usize, Seq<char>)>::empty());
                            assert(renames@ == pre_renames);
                        }
                    },
                    _ => {
                        assert(expected_renames(entries0, seq![events@[idx as int]])
                            =~= Seq::<(usize, Seq<char>)>::empty());
                        assert(renames@ == pre_renames);
                    },
                }
                assert(renames@.map_values(pairs) =~= expected_renames(
                    entries0,
                    events@.take(idx as int + 1),
                ));
            }
            idx = idx + 1;
        }
        proof {
            assert(events@.take(events@.len() as int) =~= events@);
        }
        renames
    }
}

/// The rename requests one frame's events call for, as (index, new name)
/// pairs: one for each text commit whose text differs from its entry's
/// current name, in event order.
pub open spec fn expected_renames(entries: Seq<FileData>, evs: Seq<InputEvent>) -> Seq<
    (usize, Seq<char>),
>
    decreases evs.len(),
{
    if evs.len() == 0 {
        Seq::empty()
    } else {
        let head = match evs[0] {
            InputEvent::TextCommitted(i, t) => if t@ != entries[i as int].name@ {
                seq![(i, t@)]
            } else {
                Seq::empty()
            },
            _ => Seq::empty(),
        };
        head + expected_renames(entries, evs.drop_first())
    }
}

/// One more event appends that event's requests.
proof fn lemma_expected_renames_snoc(entries: Seq<FileData>, evs: Seq<InputEvent>, e: InputEvent)
    ensures
        expected_renames(entries, evs.push(e)) == expected_renames(entries, evs)
            + expected_renames(entries, seq![e]),
    decreases evs.len(),
{
    if evs.len() == 0 {
        assert(evs.push(e)[0] == e);
        assert(evs.push(e).drop_first() =~= Seq::<InputEvent>::empty());
        assert(seq![e][0] == e);
        assert(seq![e].drop_first() =~= Seq::<InputEvent>::empty());
        assert(expected_renames(entries, Seq::<InputEvent>::empty())
            =~= Seq::<(usize, Seq<char>)>::empty());
        assert(expected_renames(entries, evs.push(e)) =~= expected_renames(entries, evs)
            + expected_renames(entries, seq![e]));
    } else {
        lemma_expected_renames_snoc(entries, evs.drop_first(), e);
        assert(evs.push(e)[0] == evs[0]);
        assert(evs.push(e).drop_first() =~= evs.drop_first().push(e));
        let head = match evs[0] {
            InputEvent::TextCommitted(i, t) => if t@ != entries[i as int].name@ {
                seq![(i, t@)]
            } else {
                Seq::<(usize, Seq<char>)>::empty()
            },
            _ => Seq::<(usize, Seq<char>)>::empty(),
        };
        assert(expected_renames(entries, evs.push(e)) == head + expected_renames(
            entries,
            evs.drop_first().push(e),
        ));
        assert(expected_renames(entries, evs) == head + expected_renames(
            entries,
            evs.drop_first(),
        ));
        assert(head + (expected_renames(entries, evs.drop_first()) + expected_renames(
            entries,
            seq![e],
        )) =~= (head + expected_renames(entries, evs.drop_first())) + expected_renames(
            entries,
            seq![e],
        ));
    }
}

/// In a well-formed view the buttons' selected flags mirror one optional
/// index, so no two distinct buttons are ever selected at once — and since
/// every transition preserves well-formedness, this holds after any
/// sequence of events.
pub proof fn lemma_single_selection(s: DirViewState)
    requires
        s.wf(),
    ensures
        forall|i: usize, j: usize|
            i < s.buttons@.len() && j < s.buttons@.len() && (
            #[trigger] s.buttons@[i as int]).rsfm.selected && (
            #[trigger] s.buttons@[j as int]).rsfm.selected ==> i == j,
{
}

/// Sets one button's selected flag, touching nothing else.
fn set_selected_flag(buttons: &mut Vec<DirViewButtonState>, k: usize, v: bool)
    requires
        k < old(buttons)@.len(),
    ensures
        final(buttons)@.len() == old(buttons)@.len(),
        forall|j: int|
            0 <= j < old(buttons)@.len() && j != k ==> final(buttons)@[j] == old(buttons)@[j],
        final(buttons)@[k as int].rsfm.selected == v,
        final(buttons)@[k as int].rsfm.double_clicked == old(buttons)@[k as int].rsfm.double_clicked,
        final(buttons)@[k as int].rsfm.editing_text == old(buttons)@[k as int].rsfm.editing_text,
        final(buttons)@[k as int].rsfm.text == old(buttons)@[k as int].rsfm.text,
        final(buttons)@[k as int].file_data == old(buttons)@[k as int].file_data,
{
    let ghost pre = buttons@;
    let mut b = buttons.remove(k);
    b.rsfm.selected = v;
    let ghost bv = b;
    buttons.insert(k, b);
    proof {
        assert(buttons@ =~= pre.update(k as int, bv));
    }
}

/// Sets one button's editing flag, touching nothing else.
fn set_editing_flag(buttons: &mut Vec<DirViewButtonState>, k: usize, v: bool)
    requires
        k < old(buttons)@.len(),
    ensures
        final(buttons)@.len() == old(buttons)@.len(),
        forall|j: int|
            0 <= j < old(buttons)@.len() && j != k ==> final(buttons)@[j] == old(buttons)@[j],
        final(buttons)@[k as int].rsfm.editing_text == v,
        final(buttons)@[k as int].rsfm.double_clicked == old(buttons)@[k as int].rsfm.double_clicked,
        final(buttons)@[k as int].rsfm.selected == old(buttons)@[k as int].rsfm.selected,
        final(buttons)@[k as int].rsfm.text == old(buttons)@[k as int].rsfm.text,
        final(buttons)@[k as int].file_data == old(buttons)@[k as int].file_data,
{
    let ghost pre = buttons@;
    let mut b = buttons.remove(k);
    b.rsfm.editing_text = v;
    let ghost bv = b;
    buttons.insert(k, b);
    proof {
        assert(buttons@ =~= pre.update(k as int, bv));
    }
}

} // verus!
