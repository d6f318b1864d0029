//! The workspace controller: the main window's modes and control bar, its
//! close guard, the image-viewer satellites and the report of a failed
//! screen sample.
use vstd::prelude::*;
use crate::geometry::{GeometryStore, Size, restored};
use crate::guard::{CloseGuard, GuardAction, GuardEvent, WindowState, next};

verus! {

/// The logical name under which the main window's geometry is kept.
pub open spec fn main_window_name() -> Seq<char> {
    "main_window"@
}

/// The logical name under which the image viewer's geometry is kept.
pub open spec fn image_viewer_name() -> Seq<char> {
    "image_viewer"@
}

/// The side of a window that has no geometry record yet.
pub const DEFAULT_SIDE: u32 = 200;

/// The size of a window that has no geometry record yet.
pub open spec fn default_size() -> Size {
    Size { width: DEFAULT_SIDE, height: DEFAULT_SIDE }
}

/// One selectable mode of the main window, by stable id and label.
#[derive(Clone, Debug)]
pub struct ModeRegistration {
    pub id: String,
    pub label: String,
}

/// The ids of the modes, in registration order.
pub open spec fn mode_ids() -> Seq<Seq<char>> {
    seq!["palette"@, "series_paint_editor"@, "image_viewer"@]
}

/// The labels of the modes, in registration order.
pub open spec fn mode_labels() -> Seq<Seq<char>> {
    seq!["Palette"@, "Series Paint Editor/Creator"@, "Image Viewer"@]
}

/// One element of the control bar, from left to right.
#[derive(Clone, Copy, Debug, PartialEq, Eq, Structural)]
pub enum ControlItem {
    /// The "Mode:" label.
    ModeLabel,
    /// The switcher that selects the visible mode.
    ModeSwitcher,
    /// The flexible space that pushes the buttons to the right.
    Spacer,
    /// The button that opens a new image viewer window.
    ImageViewerButton,
    /// The button that takes a sample of a portion of the screen.
    TakeSampleButton,
}

/// The control bar built for a host where screen sampling is, or is not,
/// available.
pub open spec fn control_bar_items(sampling_available: bool) -> Seq<ControlItem> {
    let base = seq![
        ControlItem::ModeLabel,
        ControlItem::ModeSwitcher,
        ControlItem::Spacer,
        ControlItem::ImageViewerButton,
    ];
    if sampling_available {
        base.push(ControlItem::TakeSampleButton)
    } else {
        base
    }
}

/// An error report shown modally over the main window.
#[derive(Clone, Debug)]
pub struct ErrorReport {
    pub title: String,
    pub message: String,
}

/// An image viewer window: independent of the main window and of the other
/// viewers.
#[derive(Clone, Copy, Debug, PartialEq, Eq, Structural)]
pub struct ViewerWindow {
    pub size: Size,
    /// The viewer has been asked to reload the most recently used image.
    pub reload_requested: bool,
    pub open: bool,
}

/// The viewer window that opening one creates, given the records.
pub open spec fn fresh_viewer(store: GeometryStore) -> ViewerWindow {
    ViewerWindow {
        size: restored(store.records@, image_viewer_name(), default_size()),
        reload_requested: true,
        open: true,
    }
}

/// The index of the mode that selecting `id` makes visible: the mode of
/// that id, or the one already visible when no mode has it.
pub open spec fn selected(modes: Seq<ModeRegistration>, active: int, id: Seq<char>) -> int {
    if exists|i: int| 0 <= i < modes.len() && (#[trigger] modes[i]).id@ == id {
        choose|i: int| 0 <= i < modes.len() && (#[trigger] modes[i]).id@ == id
    } else {
        active
    }
}

/// The ids of the modes are unique.
pub open spec fn unique_ids(modes: Seq<ModeRegistration>) -> bool {
    forall|i: int, j: int|
        0 <= i < modes.len() && 0 <= j < modes.len() && i != j ==> (#[trigger] modes[i]).id@
            != (#[trigger] modes[j]).id@
}

/// The running application: the main window with its modes, control bar
/// and close guard, and the image viewer windows opened from it.
#[derive(Debug)]
pub struct Session {
    pub title: String,
    pub size: Size,
    pub modes: Vec<ModeRegistration>,
    /// The index of the visible mode.
    pub active: usize,
    /// The capability probe's answer, taken once when the session was built.
    pub sampling_available: bool,
    pub control_bar: Vec<ControlItem>,
    pub guard: CloseGuard,
    pub viewers: Vec<ViewerWindow>,
}

impl Session {
    /// The session is well formed: exactly one mode is visible, the ids are
    /// unique and in registration order, and the control bar matches the
    /// capability taken at build time.
    pub open spec fn wf(&self) -> bool {
        &&& self.modes@.len() == mode_ids().len()
        &&& forall|i: int|
            0 <= i < self.modes@.len() ==> (#[trigger] self.modes@[i]).id@ == mode_ids()[i]
                && self.modes@[i].label@ == mode_labels()[i]
        &&& self.active < self.modes@.len()
        &&& self.control_bar@ == control_bar_items(self.sampling_available)
    }
}

/// The title of the main window.
pub open spec fn main_title() -> Seq<char> {
    "Artists' Colour Mixing TK"@
}

/// The title of every error report of a failed screen sample.
pub open spec fn failure_title() -> Seq<char> {
    "Failure"@
}

/// Builds the control bar: the "Mode:" label, the switcher, a spacer and
/// the image viewer button, then the sampling button exactly when the
/// capability is there.
pub fn build_control_bar(sampling_available: bool) -> (items: Vec<ControlItem>)
    ensures
        items@ == control_bar_items(sampling_available),
{
    let mut items: Vec<ControlItem> = Vec::new();
    items.push(ControlItem::ModeLabel);
    items.push(ControlItem::ModeSwitcher);
    items.push(ControlItem::Spacer);
    items.push(ControlItem::ImageViewerButton);
    if sampling_available {
        items.push(ControlItem::TakeSampleButton);
    }
    proof {
        let base = seq![
            ControlItem::ModeLabel,
            ControlItem::ModeSwitcher,
            ControlItem::Spacer,
            ControlItem::ImageViewerButton,
        ];
        if sampling_available {
            assert(items@ =~= base.push(ControlItem::TakeSampleButton));
        } else {
            assert(items@ =~= base);
        }
    }
    items
}

/// Registers the mixer, the editor and the viewer, in that order.
pub fn register_modes() -> (modes: Vec<ModeRegistration>)
    ensures
        modes@.len() == mode_ids().len(),
        forall|i: int|
            0 <= i < modes@.len() ==> (#[trigger] modes@[i]).id@ == mode_ids()[i]
                && modes@[i].label@ == mode_labels()[i],
{
    let mut modes: Vec<ModeRegistration> = Vec::new();
    modes.push(
        ModeRegistration { id: String::from_str("palette"), label: String::from_str("Palette") },
    );
    modes.push(
        ModeRegistration {
            id: String::from_str("series_paint_editor"),
            label: String::from_str("Series Paint Editor/Creator"),
        },
    );
    modes.push(
        ModeRegistration {
            id: String::from_str("image_viewer"),
            label: String::from_str("Image Viewer"),
        },
    );
    modes
}

/// The error report that a sampling outcome calls for: none on success,
/// exactly one carrying the failure's message otherwise.
pub fn sample_report(outcome: &Result<(), String>) -> (r: Option<ErrorReport>)
    ensures
        match outcome {
            Ok(()) => r.is_none(),
            Err(message) => r.is_some() && r.unwrap().title@ == failure_title()
                && r.unwrap().message@ == message@,
        },
{
    match outcome {
        Ok(()) => None,
        Err(message) => Some(
            ErrorReport { title: String::from_str("Failure"), message: message.clone() },
        ),
    }
}

/// Distinct positions hold distinct ids in a well-formed session.
pub proof fn lemma_ids_unique(s: &Session)
    requires
        s.wf(),
    ensures
        unique_ids(s.modes@),
{
    reveal_strlit("palette");
    reveal_strlit("series_paint_editor");
    reveal_strlit("image_viewer");
    assert(mode_ids()[0].len() == 7);
    assert(mode_ids()[1].len() == 19);
    assert(mode_ids()[2].len() == 12);
}

/// The sampling button is on the control bar exactly when the capability
/// probe answered yes, and then exactly once.
pub proof fn lemma_sampling_action_iff_available(sampling_available: bool)
    ensures
        control_bar_items(sampling_available).contains(ControlItem::TakeSampleButton)
            <==> sampling_available,
        sampling_available ==> control_bar_items(sampling_available).filter(
            |c: ControlItem| c == ControlItem::TakeSampleButton,
        ).len() == 1,
{
    let base = seq![
        ControlItem::ModeLabel,
        ControlItem::ModeSwitcher,
        ControlItem::Spacer,
        ControlItem::ImageViewerButton,
    ];
    let f = |c: ControlItem| c == ControlItem::TakeSampleButton;
    reveal_with_fuel(Seq::filter, 6);
    assert(!base.contains(ControlItem::TakeSampleButton)) by {
        if base.contains(ControlItem::TakeSampleButton) {
            let k = choose|k: int| 0 <= k < base.len() && base[k] == ControlItem::TakeSampleButton;
            assert(base[k] != ControlItem::TakeSampleButton);
        }
    }
    if sampling_available {
        assert(control_bar_items(true)[4] == ControlItem::TakeSampleButton);
        assert(base.filter(f) =~= Seq::<ControlItem>::empty());
        assert(base.push(ControlItem::TakeSampleButton).filter(f) =~= seq![
            ControlItem::TakeSampleButton,
        ]);
    }
}

/// Selecting a mode keeps one mode visible; selecting the mode that is
/// already visible, or selecting the same id twice, changes nothing more.
pub proof fn lemma_reselection_is_noop(s: Session, id: Seq<char>)
    requires
        s.wf(),
    ensures
        0 <= selected(s.modes@, s.active as int, id) < s.modes@.len(),
        selected(s.modes@, selected(s.modes@, s.active as int, id), id) == selected(
            s.modes@,
            s.active as int,
            id,
        ),
        s.modes@[s.active as int].id@ == id ==> selected(s.modes@, s.active as int, id)
            == s.active,
{
    lemma_ids_unique(&s);
    if s.modes@[s.active as int].id@ == id {
        let c = choose|i: int| 0 <= i < s.modes@.len() && (#[trigger] s.modes@[i]).id@ == id;
        assert(s.modes@[c].id@ == s.modes@[s.active as int].id@);
    }
}

/// Opening the image viewer twice gives two windows that both take the size
/// recorded for the image viewer (the default where there is none), and
/// closing one of them leaves the other as it was.
pub proof fn lemma_viewers_are_independent(viewers: Seq<ViewerWindow>, store: GeometryStore)
    ensures
        ({
            let n = viewers.len() as int;
            let twice = viewers.push(fresh_viewer(store)).push(fresh_viewer(store));
            let size = restored(store.records@, image_viewer_name(), default_size());
            &&& twice[n].size == size
            &&& twice[n + 1].size == size
            &&& twice[n].open && twice[n + 1].open
            &&& twice[n].reload_requested && twice[n + 1].reload_requested
            &&& twice.update(n, ViewerWindow { open: false, ..twice[n] })[n + 1] == twice[n + 1]
            &&& twice.update(n + 1, ViewerWindow { open: false, ..twice[n + 1] })[n] == twice[n]
        }),
        crate::geometry::lookup(store.records@, image_viewer_name()) is Some
            ==> fresh_viewer(store).size == crate::geometry::lookup(
            store.records@,
            image_viewer_name(),
        ).unwrap(),
{
}

impl Session {
    /// Builds the main window's session: restores its geometry under the
    /// main window's name, registers the modes, makes the first mode
    /// visible, and builds the control bar from the capability probe's
    /// answer, which is taken here once and never asked again.
    pub fn build(store: &GeometryStore, sampling_available: bool) -> (s: Session)
        ensures
            s.wf(),
            s.title@ == main_title(),
            s.size == restored(store.records@, main_window_name(), default_size()),
            s.active == 0,
            s.sampling_available == sampling_available,
            s.guard.state == WindowState::Open,
            s.viewers@.len() == 0,
    {
        let name = String::from_str("main_window");
        let size = store.restore_or_default(
            &name,
            Size { width: DEFAULT_SIDE, height: DEFAULT_SIDE },
        );
        Session {
            title: String::from_str("Artists' Colour Mixing TK"),
            size,
            modes: register_modes(),
            active: 0,
            sampling_available,
            control_bar: build_control_bar(sampling_available),
            guard: CloseGuard::new(),
            viewers: Vec::new(),
        }
    }

    /// Makes the mode `id` visible. Returns whether a mode has that id; when
    /// none has, nothing changes. The modes, their order and their ids never
    /// change, and selecting the visible mode changes nothing.
    pub fn select_mode(&mut self, id: &String) -> (found: bool)
        requires
            old(self).wf(),
        ensures
            final(self).wf(),
            found == exists|i: int|
                0 <= i < old(self).modes@.len() && (#[trigger] old(self).modes@[i]).id@ == id@,
            final(self).active == selected(old(self).modes@, old(self).active as int, id@),
            found ==> final(self).modes@[final(self).active as int].id@ == id@,
            final(self).modes@ == old(self).modes@,
            final(self).title == old(self).title,
            final(self).size == old(self).size,
            final(self).sampling_available == old(self).sampling_available,
            final(self).control_bar@ == old(self).control_bar@,
            final(self).guard == old(self).guard,
            final(self).viewers@ == old(self).viewers@,
            old(self).modes@[old(self).active as int].id@ == id@ ==> *final(self) == *old(self),
    {
        proof {
            lemma_ids_unique(self);
        }
        let mut i: usize = 0;
        while i < self.modes.len()
            invariant
                i <= self.modes@.len(),
                *self == *old(self),
                self.wf(),
                unique_ids(self.modes@),
                forall|j: int| 0 <= j < i ==> (#[trigger] self.modes@[j]).id@ != id@,
            decreases self.modes@.len() - i,
        {
            if self.modes[i].id == *id {
                proof {
                    let c = choose|k: int|
                        0 <= k < self.modes@.len() && (#[trigger] self.modes@[k]).id@ == id@;
                    assert(self.modes@[c].id@ == self.modes@[i as int].id@);
                    if self.modes@[self.active as int].id@ == id@ {
                        assert(self.active == i);
                    }
                }
                self.active = i;
                return true;
            }
            i = i + 1;
        }
        false
    }

    /// Hands one close-guard event to the main window's guard; nothing else
    /// in the session changes.
    pub fn handle_close_event(&mut self, event: GuardEvent) -> (a: GuardAction)
        ensures
            (final(self).guard.state, a) == next(old(self).guard.state, event),
            final(self).title == old(self).title,
            final(self).size == old(self).size,
            final(self).modes@ == old(self).modes@,
            final(self).active == old(self).active,
            final(self).sampling_available == old(self).sampling_available,
            final(self).control_bar@ == old(self).control_bar@,
            final(self).viewers@ == old(self).viewers@,
    {
        self.guard.handle(event)
    }

    /// Opens a new image viewer window, sized from the image viewer's own
    /// record, asked to reload the most recent image. Returns its index.
    /// The main window and the viewers already open are left as they were.
    pub fn open_image_viewer(&mut self, store: &GeometryStore) -> (idx: usize)
        requires
            old(self).viewers@.len() < usize::MAX,
        ensures
            idx == old(self).viewers@.len(),
            final(self).viewers@ == old(self).viewers@.push(fresh_viewer(*store)),
            final(self).title == old(self).title,
            final(self).size == old(self).size,
            final(self).modes@ == old(self).modes@,
            final(self).active == old(self).active,
            final(self).sampling_available == old(self).sampling_available,
            final(self).control_bar@ == old(self).control_bar@,
            final(self).guard == old(self).guard,
    {
        let name = String::from_str("image_viewer");
        let size = store.restore_or_default(
            &name,
            Size { width: DEFAULT_SIDE, height: DEFAULT_SIDE },
        );
        let idx = self.viewers.len();
        self.viewers.push(ViewerWindow { size, reload_requested: true, open: true });
        idx
    }

    /// Closes the image viewer window `idx`; every other window is left as
    /// it was.
    pub fn close_image_viewer(&mut self, idx: usize)
        requires
            idx < old(self).viewers@.len(),
        ensures
            final(self).viewers@ == old(self).viewers@.update(
                idx as int,
                ViewerWindow { open: false, ..old(self).viewers@[idx as int] },
            ),
            final(self).title == old(self).title,
            final(self).size == old(self).size,
            final(self).modes@ == old(self).modes@,
            final(self).active == old(self).active,
            final(self).sampling_available == old(self).sampling_available,
            final(self).control_bar@ == old(self).control_bar@,
            final(self).guard == old(self).guard,
    {
        let mut w = self.viewers[idx];
        w.open = false;
        self.viewers.set(idx, w);
    }

    /// The error report that a click on the sampling button calls for,
    /// given what the sampling service returned. The session itself is
    /// not changed.
    pub fn on_sample_result(&self, outcome: &Result<(), String>) -> (r: Option<ErrorReport>)
        ensures
            match outcome {
                Ok(()) => r.is_none(),
                Err(message) => r.is_some() && r.unwrap().title@ == failure_title()
                    && r.unwrap().message@ == message@,
            },
    {
        sample_report(outcome)
    }
}

} // verus!
