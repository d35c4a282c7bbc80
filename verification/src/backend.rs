use vstd::prelude::*;
use vstd::string::*;

verus! {

broadcast use vstd::string::group_string_axioms;

/// The state of the JIT helper that the graphical and the text interface
/// share. `H` is the handle through which a connected device is reached.
pub struct Backend<H> {
    pub chosen_device: Option<u8>,
    pub device_list: Option<Vec<(H, String)>>,
    pub dmg_path: Option<String>,
    // Show specific windows on the GUI
    pub show_about: bool,
    pub error: Option<String>,
}

/// What the interface reports that the user did.
pub enum UiEvent {
    /// "About" was picked from the menu.
    AboutOpened,
    /// The about window was closed.
    AboutClosed,
    /// The device at this position of the list was picked.
    DeviceChosen(u8),
    /// "Refresh" was clicked.
    Refreshed,
    /// The error window was closed.
    ErrorClosed,
}

/// The devices among `probes` that answered: each probe is the device's
/// handle and name, or `None` when the device could not be reached or did not
/// give its name. The order is kept.
pub open spec fn answered<H>(probes: Seq<Option<(H, String)>>) -> Seq<(H, String)>
    decreases probes.len(),
{
    if probes.len() == 0 {
        Seq::empty()
    } else {
        let rest = answered(probes.drop_last());
        match probes.last() {
            Some(d) => rest.push(d),
            None => rest,
        }
    }
}

/// The label of a device in the text interface: its identifier, a dash and
/// its name.
pub open spec fn choice_text(udid: Seq<char>, name: Seq<char>) -> Seq<char> {
    udid + " - "@ + name
}

/// The label of a device in the text interface.
pub fn choice_label(udid: &str, name: &str) -> (r: String)
    ensures
        r@ == choice_text(udid@, name@),
{
    let mut r = String::from_str(udid);
    r.append(" - ");
    r.append(name);
    r
}

impl<H> Backend<H> {
    /// What the interface keeps true between frames: a chosen device points
    /// into the device list, and a disk image is known only while a device is
    /// chosen.
    pub open spec fn frame_consistent(self) -> bool {
        &&& self.chosen_device matches Some(i) ==> (self.device_list matches Some(l) && i
            < l@.len())
        &&& self.dmg_path is Some ==> self.chosen_device is Some
    }

    /// Consistent, and a device is chosen exactly when its disk image is known:
    /// the state that a frame of the graphical interface ends in.
    pub open spec fn settled(self) -> bool {
        &&& self.frame_consistent()
        &&& self.chosen_device is Some == self.dmg_path is Some
    }

    /// No device list, no device chosen, no disk image, no window open.
    pub fn new() -> (b: Self)
        ensures
            b.chosen_device is None,
            b.device_list is None,
            b.dmg_path is None,
            !b.show_about,
            b.error is None,
            b.settled(),
    {
        Self { chosen_device: None, device_list: None, dmg_path: None, show_about: false, error: None }
    }

    /// Records the devices found: those among `probes` that answered, in
    /// order. Nothing else changes.
    pub fn get_device_list(&mut self, probes: Vec<Option<(H, String)>>)
        ensures
            final(self).device_list matches Some(l) && l@ == answered(probes@),
            final(self).chosen_device == old(self).chosen_device,
            final(self).dmg_path == old(self).dmg_path,
            final(self).show_about == old(self).show_about,
            final(self).error == old(self).error,
            old(self).frame_consistent() && old(self).device_list is None ==> final(self).settled(),
    {
        let mut list: Vec<(H, String)> = Vec::new();
        let ghost all = probes@;
        for p in it: probes.into_iter()
            invariant
                it.seq() == all,
                list@ == answered(all.take(it.index())),
        {
            proof {
                assert(all.take(it.index() + 1).drop_last() =~= all.take(it.index()));
            }
            match p {
                Some(d) => list.push(d),
                None => {},
            }
        }
        proof {
            assert(all.take(all.len() as int) =~= all);
        }
        self.device_list = Some(list);
    }

    /// Whether the device list must be fetched: it has not been, or it was
    /// dropped by a refresh.
    pub fn needs_device_list(&self) -> (r: bool)
        ensures
            r == self.device_list is None,
    {
        self.device_list.is_none()
    }

    /// Whether a device is chosen for which no disk image has been found yet.
    pub fn needs_dmg(&self) -> (r: bool)
        ensures
            r == (self.chosen_device is Some && self.dmg_path is None),
    {
        self.chosen_device.is_some() && self.dmg_path.is_none()
    }

    /// The entry of the chosen device; `None` when no device is chosen or the
    /// choice points past the list.
    pub fn chosen_entry(&self) -> (r: Option<&(H, String)>)
        ensures
            r is Some == (self.chosen_device is Some && self.device_list is Some
                && self.chosen_device->0 < self.device_list->0@.len()),
            r matches Some(e) ==> *e == self.device_list->0@[self.chosen_device->0 as int],
    {
        match (self.chosen_device, &self.device_list) {
            (Some(i), Some(list)) => {
                if (i as usize) < list.len() {
                    Some(&list[i as usize])
                } else {
                    None
                }
            },
            _ => None,
        }
    }

    /// The text that the device selector shows: the name of the chosen
    /// device, or "None" when no device is chosen. `None` when the choice
    /// points past the list.
    pub fn chosen_label(&self) -> (r: Option<String>)
        ensures
            self.chosen_device is None ==> (r matches Some(t) && t@ == "None"@),
            self.chosen_device is Some ==> {
                &&& r is Some == (self.device_list is Some && self.chosen_device->0
                    < self.device_list->0@.len())
                &&& r matches Some(t) ==> t@ == self.device_list->0@[self.chosen_device->0 as int].1@
            },
    {
        match self.chosen_device {
            None => Some(String::from_str("None")),
            Some(_) => match self.chosen_entry() {
                Some(e) => Some(e.1.clone()),
                None => None,
            },
        }
    }

    /// The state after the user did `event`: the about window opens or
    /// closes; choosing a device forgets the disk image found for the previous
    /// one; a refresh drops the device list, the choice and the disk image;
    /// closing the error window clears the error.
    pub open spec fn ui_next(self, event: UiEvent) -> Self {
        match event {
            UiEvent::AboutOpened => Backend { show_about: true, ..self },
            UiEvent::AboutClosed => Backend { show_about: false, ..self },
            UiEvent::DeviceChosen(i) => Backend { chosen_device: Some(i), dmg_path: None, ..self },
            UiEvent::Refreshed => Backend {
                device_list: None,
                chosen_device: None,
                dmg_path: None,
                ..self
            },
            UiEvent::ErrorClosed => Backend { error: None, ..self },
        }
    }

    /// The state once the retrieval of the chosen device's disk image ended:
    /// with the image's path, or with an error that is shown and drops the
    /// choice.
    pub open spec fn after_image(self, outcome: Result<String, String>) -> Self {
        match outcome {
            Ok(path) => Backend { dmg_path: Some(path), ..self },
            Err(e) => Backend { error: Some(e), chosen_device: None, ..self },
        }
    }

    /// One frame of the graphical interface, its steps in the order it takes
    /// them: "About" may be picked from the menu; the device list is fetched
    /// (giving `fetched`) when there is none; a device may be clicked; the list
    /// may be refreshed; the disk image is retrieved (ending in `image`) when
    /// a chosen device has none; then the about and error windows may be
    /// closed.
    pub open spec fn frame(
        self,
        about_opened: bool,
        fetched: Vec<(H, String)>,
        click: Option<u8>,
        refreshed: bool,
        image: Result<String, String>,
        about_closed: bool,
        error_closed: bool,
    ) -> Self {
        let b1 = if about_opened {
            self.ui_next(UiEvent::AboutOpened)
        } else {
            self
        };
        let b2 = if b1.device_list is None {
            Backend { device_list: Some(fetched), ..b1 }
        } else {
            b1
        };
        let b3 = match click {
            Some(i) => b2.ui_next(UiEvent::DeviceChosen(i)),
            None => b2,
        };
        let b4 = if refreshed {
            b3.ui_next(UiEvent::Refreshed)
        } else {
            b3
        };
        let b5 = if b4.chosen_device is Some && b4.dmg_path is None {
            b4.after_image(image)
        } else {
            b4
        };
        let b6 = if about_closed && b5.show_about {
            b5.ui_next(UiEvent::AboutClosed)
        } else {
            b5
        };
        if error_closed && b6.error is Some {
            b6.ui_next(UiEvent::ErrorClosed)
        } else {
            b6
        }
    }

    /// The number of devices that can be clicked in a frame: those of the
    /// list, or of the list fetched when there was none.
    pub open spec fn clickable(self, fetched: Vec<(H, String)>) -> nat {
        match self.device_list {
            Some(l) => l@.len(),
            None => fetched@.len(),
        }
    }

    /// Applies what the user did to the state.
    pub fn handle_ui(&mut self, event: UiEvent)
        ensures
            *final(self) == old(self).ui_next(event),
            old(self).frame_consistent() && (event matches UiEvent::DeviceChosen(i) ==> (old(self).device_list matches Some(l)
                && i < l@.len())) ==> final(self).frame_consistent(),
            old(self).settled() && !(event is DeviceChosen) ==> final(self).settled(),
    {
        match event {
            UiEvent::AboutOpened => {
                self.show_about = true;
            },
            UiEvent::AboutClosed => {
                self.show_about = false;
            },
            UiEvent::DeviceChosen(i) => {
                self.chosen_device = Some(i);
                self.dmg_path = None;
            },
            UiEvent::Refreshed => {
                self.device_list = None;
                self.chosen_device = None;
                self.dmg_path = None;
            },
            UiEvent::ErrorClosed => {
                self.error = None;
            },
        }
    }

    /// Records where the disk image of the chosen device's iOS version lies.
    pub fn dmg_ready(&mut self, path: String)
        ensures
            *final(self) == old(self).after_image(Ok(path)),
            old(self).frame_consistent() && old(self).chosen_device is Some ==> final(self).settled(),
    {
        self.dmg_path = Some(path);
    }

    /// Records that no disk image could be had: the error is shown and the
    /// device choice is dropped.
    pub fn dmg_failed(&mut self, error: String)
        ensures
            *final(self) == old(self).after_image(Err(error)),
            old(self).frame_consistent() && old(self).dmg_path is None ==> final(self).settled(),
    {
        self.error = Some(error);
        self.chosen_device = None;
    }
}

/// Choosing a device makes its disk image wanted: after the choice a device
/// is chosen and no image is known, so `needs_dmg` holds.
pub proof fn law_choice_wants_image<H>(b: Backend<H>, i: u8)
    ensures
        b.ui_next(UiEvent::DeviceChosen(i)).chosen_device == Some(i),
        b.ui_next(UiEvent::DeviceChosen(i)).dmg_path is None,
{
}

/// A refresh forgets everything about devices: the list must be fetched
/// again and no disk image is wanted until a device is chosen anew.
pub proof fn law_refresh_forgets_devices<H>(b: Backend<H>)
    ensures
        b.ui_next(UiEvent::Refreshed).device_list is None,
        b.ui_next(UiEvent::Refreshed).chosen_device is None,
        b.ui_next(UiEvent::Refreshed).dmg_path is None,
{
}

/// Only a refresh changes the device list among the things a user can do.
pub proof fn law_device_list_kept<H>(b: Backend<H>, event: UiEvent)
    requires
        !(event is Refreshed),
    ensures
        b.ui_next(event).device_list == b.device_list,
{
}

/// What the user does in the windows never touches the error except closing
/// its window, and never touches the about window except opening or closing
/// it.
pub proof fn law_windows_independent<H>(b: Backend<H>, event: UiEvent)
    ensures
        !(event is ErrorClosed) ==> b.ui_next(event).error == b.error,
        !(event is AboutOpened || event is AboutClosed) ==> b.ui_next(event).show_about
            == b.show_about,
{
}

/// The devices kept from a probe are never more than the devices probed.
pub proof fn law_answered_at_most_probed<H>(probes: Seq<Option<(H, String)>>)
    ensures
        answered(probes).len() <= probes.len(),
    decreases probes.len(),
{
    if probes.len() > 0 {
        law_answered_at_most_probed(probes.drop_last());
    }
}

/// What the user does keeps the interface consistent, as long as a device
/// chosen is one of the list.
pub proof fn law_frame_kept_by_ui<H>(b: Backend<H>, event: UiEvent)
    requires
        b.frame_consistent(),
        event matches UiEvent::DeviceChosen(i) ==> (b.device_list matches Some(l) && i
            < l@.len()),
    ensures
        b.ui_next(event).frame_consistent(),
{
}

/// In a consistent state a chosen device is always one of the list, so its
/// entry and label can be had.
pub proof fn law_consistent_choice_is_listed<H>(b: Backend<H>)
    requires
        b.frame_consistent(),
        b.chosen_device is Some,
    ensures
        b.device_list is Some,
        b.chosen_device->0 < b.device_list->0@.len(),
{
}

/// A frame of the graphical interface keeps it consistent and ends with a
/// device chosen exactly when its disk image is known, so the chosen device
/// always indexes the list and never lacks its image between frames.
pub proof fn law_frame_settles<H>(
    b: Backend<H>,
    about_opened: bool,
    fetched: Vec<(H, String)>,
    click: Option<u8>,
    refreshed: bool,
    image: Result<String, String>,
    about_closed: bool,
    error_closed: bool,
)
    requires
        b.frame_consistent(),
        click matches Some(i) ==> i < b.clickable(fetched),
    ensures
        b.frame(about_opened, fetched, click, refreshed, image, about_closed, error_closed).settled(),
{
}

/// When a consistent state needs no disk image, it is already settled: the
/// frame's image step then changes nothing and the frame ends settled.
pub proof fn law_no_image_needed_is_settled<H>(b: Backend<H>)
    requires
        b.frame_consistent(),
        !(b.chosen_device is Some && b.dmg_path is None),
    ensures
        b.settled(),
{
}

/// Every device that answers is listed after those before it, whatever its
/// name; a device that does not answer adds nothing.
pub proof fn law_answered_appended<H>(probes: Seq<Option<(H, String)>>, d: (H, String))
    ensures
        answered(probes.push(Some(d))) == answered(probes).push(d),
        answered(probes.push(None)) == answered(probes),
{
    assert(probes.push(Some(d)).drop_last() =~= probes);
    assert(probes.push(None::<(H, String)>).drop_last() =~= probes);
}

/// The devices listed are exactly the answers among the probes, in order:
/// wrapped back into probes they are the probes that are not `None`.
pub proof fn law_answered_are_the_answers<H>(probes: Seq<Option<(H, String)>>)
    ensures
        answered(probes).map_values(|d: (H, String)| Some(d)) == probes.filter(
            |p: Option<(H, String)>| p is Some,
        ),
    decreases probes.len(),
{
    reveal(Seq::filter);
    if probes.len() > 0 {
        law_answered_are_the_answers(probes.drop_last());
        let f = |p: Option<(H, String)>| p is Some;
        let rest = answered(probes.drop_last());
        match probes.last() {
            Some(d) => {
                assert(rest.push(d).map_values(|d: (H, String)| Some(d)) =~= rest.map_values(
                    |d: (H, String)| Some(d),
                ).push(Some(d)));
            },
            None => {},
        }
        assert(probes.filter(f) == if f(probes.last()) {
            probes.drop_last().filter(f).push(probes.last())
        } else {
            probes.drop_last().filter(f)
        });
    } else {
        assert(answered(probes).map_values(|d: (H, String)| Some(d)) =~= probes);
    }
}

} // verus!
