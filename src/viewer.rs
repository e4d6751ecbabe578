use crate::cache::{cleared, ChartCache};
use crate::calendar::{day_text, format_day, parse_day, parsed_day};
use crate::chart::{is_plan, plan_chart, ChartPlan};
use crate::navigation::{moves_view, step_spec, NavEvent, Navigator};
use crate::sidebar::{critical_days, critical_window, CriticalDay};
use vstd::prelude::*;

verus! {

/// A saved name with a birth date, as a day number.
#[derive(Clone, Debug)]
pub struct Profile {
    pub name: String,
    pub day: i32,
}

impl Profile {
    pub open spec fn model(&self) -> (Seq<char>, int) {
        (self.name@, self.day as int)
    }
}

impl Profile {
    /// A profile from a name and a date text in the pattern `YYYY-MM-DD`, or
    /// `None` when the text does not parse.
    pub fn from_text(name: String, date: &str) -> (r: Option<Profile>)
        ensures
            match (parsed_day(date@), r) {
                (Some(d), Some(p)) => p.name@ == name@ && p.day == d,
                (None, None) => true,
                _ => false,
            },
    {
        match parse_day(date) {
            Some(day) => Some(Profile { name, day }),
            None => None,
        }
    }

    /// The date as `YYYY-MM-DD`, or `None` for a day out of the calendar's range.
    pub fn date_text(&self) -> (r: Option<String>)
        ensures
            match (day_text(self.day as int), r) {
                (Some(t), Some(s)) => s@ == t,
                (None, None) => true,
                _ => false,
            },
    {
        format_day(self.day)
    }
}

impl PartialEq for Profile {
    fn eq(&self, o: &Profile) -> (r: bool) {
        self.day == o.day && self.name == o.name
    }
}

impl vstd::std_specs::cmp::PartialEqSpecImpl for Profile {
    open spec fn obeys_eq_spec() -> bool {
        true
    }

    open spec fn eq_spec(&self, o: &Profile) -> bool {
        self.model() == o.model()
    }
}

/// The saved list as (name, day) pairs.
pub open spec fn profiles_model(v: Seq<Profile>) -> Seq<(Seq<char>, int)> {
    v.map_values(|p: Profile| p.model())
}

/// The list after saving `e`: appended unless it is already there.
pub open spec fn saved_after(list: Seq<(Seq<char>, int)>, e: (Seq<char>, int)) -> Seq<
    (Seq<char>, int),
> {
    if list.contains(e) {
        list
    } else {
        list.push(e)
    }
}

/// Saving a pair that is already listed leaves the list unchanged, so saving
/// the same pair twice is the same as saving it once.
pub proof fn lemma_save_set_like(list: Seq<(Seq<char>, int)>, e: (Seq<char>, int))
    ensures
        list.contains(e) ==> saved_after(list, e) == list,
        saved_after(saved_after(list, e), e) == saved_after(list, e),
        saved_after(list, e).contains(e),
{
    if !list.contains(e) {
        assert(list.push(e)[list.len() as int] == e);
    }
}

/// Whether `list` holds the pair (`name`, `day`).
pub fn contains_profile(list: &Vec<Profile>, name: &String, day: i32) -> (r: bool)
    ensures
        r == profiles_model(list@).contains((name@, day as int)),
{
    let mut i: usize = 0;
    while i < list.len()
        invariant
            0 <= i <= list@.len(),
            forall|k: int| 0 <= k < i ==> (#[trigger] list@[k]).model() != (name@, day as int),
        decreases list@.len() - i,
    {
        if list[i].day == day && list[i].name == *name {
            assert(profiles_model(list@)[i as int] == (name@, day as int));
            return true;
        }
        i = i + 1;
    }
    assert forall|k: int| 0 <= k < profiles_model(list@).len() implies #[trigger] profiles_model(
        list@,
    )[k] != (name@, day as int) by {
        assert(profiles_model(list@)[k] == list@[k].model());
    }
    false
}

/// A user action, with the plain values it carries.
#[derive(Clone, Debug)]
pub enum Message {
    NameChanged(String),
    DateChanged(String),
    SaveEntry,
    EntrySelected(Profile),
    OffsetChanged(i32),
    ShiftOffset(i32),
    /// A step control was pressed: direction and the time, in nanoseconds.
    StartRolling(i32, u64),
    /// A frame tick at a time, in nanoseconds.
    FrameTick(u64),
    ResetOffset,
    /// A wheel event; the value has the sign of its vertical delta.
    WheelScrolled(i32),
    /// The primary pointer button was released, anywhere.
    PointerReleased,
    GoToDate(i32),
}

/// The navigation event that a message stands for, if any.
pub open spec fn nav_event_of(msg: Message) -> Option<NavEvent> {
    match msg {
        Message::OffsetChanged(v) => Some(NavEvent::SetOffset(v)),
        Message::GoToDate(v) => Some(NavEvent::SetOffset(v)),
        Message::ShiftOffset(d) => Some(NavEvent::Shift(d)),
        Message::StartRolling(dir, now) => Some(NavEvent::StartRolling(dir, now)),
        Message::FrameTick(now) => Some(NavEvent::Tick(now)),
        Message::ResetOffset => Some(NavEvent::Reset),
        Message::WheelScrolled(s) => Some(NavEvent::Wheel(s)),
        Message::PointerReleased => Some(NavEvent::Release),
        _ => None,
    }
}

/// The navigation event that a message stands for, if any.
pub fn nav_event(msg: &Message) -> (r: Option<NavEvent>)
    ensures
        r == nav_event_of(*msg),
{
    match msg {
        Message::OffsetChanged(v) => Some(NavEvent::SetOffset(*v)),
        Message::GoToDate(v) => Some(NavEvent::SetOffset(*v)),
        Message::ShiftOffset(d) => Some(NavEvent::Shift(*d)),
        Message::StartRolling(dir, now) => Some(NavEvent::StartRolling(*dir, *now)),
        Message::FrameTick(now) => Some(NavEvent::Tick(*now)),
        Message::ResetOffset => Some(NavEvent::Reset),
        Message::WheelScrolled(s) => Some(NavEvent::Wheel(*s)),
        Message::PointerReleased => Some(NavEvent::Release),
        _ => None,
    }
}

/// `c` is the chart for the parsed reference day `parsed`: a layout when the
/// date parsed, none when it did not.
pub open spec fn plan_fits(c: Option<ChartPlan>, parsed: Option<int>, today: int, offset: int) -> bool {
    match (parsed, c) {
        (Some(r), Some(p)) => is_plan(p, r, today, offset),
        (None, None) => true,
        _ => false,
    }
}

/// The whole state of the chart viewer: the two text fields, the saved
/// profiles, the navigation state and the cached chart.
pub struct Viewer {
    pub name_input: String,
    pub date_input: String,
    pub selected: Option<Profile>,
    pub saved: Vec<Profile>,
    pub nav: Navigator,
    /// The chart layout, or `None` while the date text does not parse.
    pub chart: ChartCache<Option<ChartPlan>>,
}

impl Viewer {
    pub open spec fn wf(&self) -> bool {
        self.nav.wf()
    }

    /// A viewer with the date field set to `today`, offset 0 and the given
    /// saved profiles.
    pub fn new(saved: Vec<Profile>, today: i32) -> (r: Viewer)
        ensures
            r.wf(),
            r.name_input@ == Seq::<char>::empty(),
            r.date_input@ == match day_text(today as int) {
                Some(t) => t,
                None => Seq::<char>::empty(),
            },
            r.selected is None,
            r.saved@ == saved@,
            r.nav == Navigator::new_spec(),
            r.chart@ is None,
    {
        let date_input = match format_day(today) {
            Some(t) => t,
            None => String::new(),
        };
        Viewer {
            name_input: String::new(),
            date_input,
            selected: None,
            saved,
            nav: Navigator::new(),
            chart: ChartCache::new(),
        }
    }

    /// Saves the name field with the date field's day unless that pair is
    /// already saved or the date does not parse. Returns whether the list
    /// grew, so that it must be stored again.
    pub fn save_profile(&mut self) -> (grew: bool)
        ensures
            grew == (parsed_day(old(self).date_input@) matches Some(d) && !profiles_model(
                old(self).saved@,
            ).contains((old(self).name_input@, d))),
            parsed_day(old(self).date_input@) matches Some(d) ==> profiles_model(final(self).saved@)
                == saved_after(profiles_model(old(self).saved@), (old(self).name_input@, d)),
            parsed_day(old(self).date_input@) is None ==> final(self).saved@ == old(self).saved@,
            final(self).name_input == old(self).name_input,
            final(self).date_input == old(self).date_input,
            final(self).selected == old(self).selected,
            final(self).nav == old(self).nav,
            final(self).chart@ == old(self).chart@,
    {
        match parse_day(self.date_input.as_str()) {
            Some(day) => {
                if contains_profile(&self.saved, &self.name_input, day) {
                    false
                } else {
                    let p = Profile { name: self.name_input.clone(), day };
                    let ghost before = self.saved@;
                    self.saved.push(p);
                    assert(profiles_model(self.saved@) =~= profiles_model(before).push(p.model()));
                    true
                }
            },
            None => false,
        }
    }

    /// Loads a saved profile into the fields and redraws.
    pub fn select_profile(&mut self, p: Profile)
        ensures
            final(self).date_input@ == match day_text(p.day as int) {
                Some(t) => t,
                None => old(self).date_input@,
            },
            final(self).name_input@ == p.name@,
            final(self).selected == Some(p),
            final(self).saved == old(self).saved,
            final(self).nav == old(self).nav,
            final(self).chart@ == cleared(old(self).chart@),
    {
        match format_day(p.day) {
            Some(t) => {
                self.date_input = t;
            },
            None => {},
        }
        self.name_input = p.name.clone();
        self.selected = Some(p);
        self.chart.invalidate();
    }

    /// Handles one message. Every change to the date text or to the offset
    /// empties the chart cache. Returns whether the saved list grew.
    pub fn update(&mut self, msg: Message) -> (grew: bool)
        requires
            old(self).wf(),
        ensures
            final(self).wf(),
            nav_event_of(msg) matches Some(ev) ==> {
                &&& final(self).nav == step_spec(old(self).nav, ev)
                &&& final(self).chart@ == if moves_view(ev, old(self).nav) {
                    cleared(old(self).chart@)
                } else {
                    old(self).chart@
                }
                &&& final(self).name_input == old(self).name_input
                &&& final(self).date_input == old(self).date_input
                &&& final(self).selected == old(self).selected
                &&& final(self).saved == old(self).saved
                &&& !grew
            },
            msg matches Message::NameChanged(n) ==> {
                &&& final(self).name_input == n
                &&& final(self).date_input == old(self).date_input
                &&& final(self).selected == old(self).selected
                &&& final(self).saved == old(self).saved
                &&& final(self).nav == old(self).nav
                &&& final(self).chart@ == old(self).chart@
                &&& !grew
            },
            msg matches Message::DateChanged(d) ==> {
                &&& final(self).date_input == d
                &&& final(self).name_input == old(self).name_input
                &&& final(self).selected == old(self).selected
                &&& final(self).saved == old(self).saved
                &&& final(self).nav == old(self).nav
                &&& final(self).chart@ == cleared(old(self).chart@)
                &&& !grew
            },
            msg is SaveEntry ==> {
                &&& grew == (parsed_day(old(self).date_input@) matches Some(d) && !profiles_model(
                    old(self).saved@,
                ).contains((old(self).name_input@, d)))
                &&& parsed_day(old(self).date_input@) matches Some(d) ==> profiles_model(
                    final(self).saved@,
                ) == saved_after(profiles_model(old(self).saved@), (old(self).name_input@, d))
                &&& parsed_day(old(self).date_input@) is None ==> final(self).saved@ == old(
                    self,
                ).saved@
                &&& final(self).name_input == old(self).name_input
                &&& final(self).date_input == old(self).date_input
                &&& final(self).nav == old(self).nav
                &&& final(self).chart@ == old(self).chart@
            },
            msg matches Message::EntrySelected(p) ==> {
                &&& final(self).date_input@ == match day_text(p.day as int) {
                    Some(t) => t,
                    None => old(self).date_input@,
                }
                &&& final(self).name_input@ == p.name@
                &&& final(self).selected == Some(p)
                &&& final(self).saved == old(self).saved
                &&& final(self).nav == old(self).nav
                &&& final(self).chart@ == cleared(old(self).chart@)
                &&& !grew
            },
    {
        match nav_event(&msg) {
            Some(ev) => {
                if self.nav.apply(ev) {
                    self.chart.invalidate();
                }
                false
            },
            None => match msg {
                Message::NameChanged(n) => {
                    self.name_input = n;
                    false
                },
                Message::DateChanged(d) => {
                    self.date_input = d;
                    self.chart.invalidate();
                    false
                },
                Message::SaveEntry => self.save_profile(),
                Message::EntrySelected(p) => {
                    self.select_profile(p);
                    false
                },
                _ => false,
            },
        }
    }

    /// Whether the frame-tick driver must run: exactly while rolling.
    pub fn wants_frames(&self) -> (r: bool)
        ensures
            r == self.nav.rolling is Some,
    {
        self.nav.is_rolling()
    }

    /// Lays the chart out again if the cache is empty, for `today`; a date
    /// text that does not parse gives an empty chart.
    pub fn refresh_chart(&mut self, today: i32)
        ensures
            old(self).chart@ is Some ==> final(self).chart@ == old(self).chart@,
            old(self).chart@ is None ==> (final(self).chart@ matches Some(c) && plan_fits(
                c,
                parsed_day(old(self).date_input@),
                today as int,
                old(self).nav.offset as int,
            )),
            final(self).name_input == old(self).name_input,
            final(self).date_input == old(self).date_input,
            final(self).selected == old(self).selected,
            final(self).saved == old(self).saved,
            final(self).nav == old(self).nav,
    {
        if !self.chart.is_cached() {
            let plan = match parse_day(self.date_input.as_str()) {
                Some(r) => Some(plan_chart(r, today, self.nav.offset)),
                None => None,
            };
            self.chart.fill(plan);
        }
    }

    /// The cached chart layout: `None` before `refresh_chart`, `Some(None)`
    /// when the date text does not parse.
    pub fn cached_chart(&self) -> (r: Option<&Option<ChartPlan>>)
        ensures
            r == match self.chart@ {
                Some(v) => Some(&v),
                None => None::<&Option<ChartPlan>>,
            },
    {
        self.chart.get()
    }

    /// The critical days around the current offset, or `None` while the date
    /// text does not parse.
    pub fn critical_days(&self, today: i32) -> (r: Option<Vec<CriticalDay>>)
        ensures
            match (parsed_day(self.date_input@), r) {
                (Some(rd), Some(v)) => v@.len() == critical_window(
                    rd,
                    today as int,
                    self.nav.offset as int,
                ).len() && forall|k: int|
                    0 <= k < v@.len() ==> (#[trigger] v@[k]).model() == critical_window(
                        rd,
                        today as int,
                        self.nav.offset as int,
                    )[k] && v@[k].day == today + v@[k].offset,
                (None, None) => true,
                _ => false,
            },
    {
        match parse_day(self.date_input.as_str()) {
            Some(rd) => Some(critical_days(rd, today, self.nav.offset)),
            None => None,
        }
    }
}

} // verus!
