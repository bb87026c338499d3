//! The main screen, shown once logged in: a sub-screen (for now the list of
//! artists) above a bar that tells what is playing.
use crate::decimal::{
    decimal, digit_char, lemma_decimal_reads_back, lemma_two_digits_reads_back, push_two_digits,
    two_digits, value_of,
};
use crate::{Action, Never, Screen};
use std::sync::Arc;
use vstd::prelude::*;
use vstd::string::*;

pub mod artists;
pub mod login;

verus! {

/// The screen shown above the now-playing bar.
#[derive(Debug, Clone)]
pub enum SubScreen<C, H> {
    Artists(artists::State<C, H>),
}

/// The song being played: its cover, if there is one, and its length and
/// the position reached, both in whole seconds.
#[derive(Debug, Clone)]
pub struct SongPlaying {
    cover: Option<Vec<u8>>,
    duration: u64,
    position: u64,
}

/// The main screen. `C` is the client, `H` an image handle.
#[derive(Debug, Clone)]
pub struct MainScreen<C, H> {
    client: Arc<C>,
    current_screen: SubScreen<C, H>,
    now_playing: Option<SongPlaying>,
}

/// The messages of the main screen: those of its sub-screen.
#[derive(Debug, Clone)]
pub enum Msg<H> {
    ArtistsScreenMsg(artists::Msg<H>),
}

/// The work that the main screen asks for: that of its sub-screen.
#[derive(Debug, Clone)]
pub enum Task {
    Artists(artists::Task),
}

/// That work as the model sees it.
pub enum TaskView {
    Artists(artists::TaskView),
}

impl View for Task {
    type V = TaskView;

    open spec fn view(&self) -> TaskView {
        match self {
            Task::Artists(t) => TaskView::Artists(t@),
        }
    }
}

/// The main screen as the model sees it.
pub struct MainView<C, H> {
    pub client: C,
    pub artists: artists::ArtistsView<C, H>,
    pub now_playing: Option<SongPlaying>,
}

impl<C, H> View for MainScreen<C, H> {
    type V = MainView<C, H>;

    closed spec fn view(&self) -> MainView<C, H> {
        MainView {
            client: *self.client,
            artists: match self.current_screen {
                SubScreen::Artists(s) => s@,
            },
            now_playing: self.now_playing,
        }
    }
}

/// `m:ss` as `{:02}:{:02}` prints minutes and seconds.
pub open spec fn duration_text(secs: nat) -> Seq<char> {
    two_digits(secs / 60) + seq![':'] + two_digits(secs % 60)
}

/// The text of the now-playing bar: position, then length.
pub open spec fn progress_text(position: nat, duration: nat) -> Seq<char> {
    duration_text(position) + seq![' ', '/', ' '] + duration_text(duration)
}

/// The text of a duration reads back as it: two digits or more of minutes,
/// a colon, and exactly two digits of seconds, below sixty.
pub proof fn lemma_duration_text_reads_back(secs: nat)
    ensures
        duration_text(secs) == two_digits(secs / 60) + seq![':'] + two_digits(secs % 60),
        two_digits(secs % 60).len() == 2,
        value_of(two_digits(secs % 60)) < 60,
        value_of(two_digits(secs / 60)) * 60 + value_of(two_digits(secs % 60)) == secs,
{
    lemma_two_digits_reads_back(secs / 60);
    lemma_two_digits_reads_back(secs % 60);
    let n = secs % 60;
    if n >= 10 {
        lemma_decimal_reads_back(n / 10);
        assert(n / 10 < 10);
        assert(decimal(n) == decimal(n / 10).push(digit_char((n % 10) as int)));
    }
}

/// The main screen that `init` makes for the client `client`.
pub open spec fn init_model<C, H>(client: C) -> MainView<C, H> {
    MainView {
        client,
        artists: artists::init_model(client),
        now_playing: None,
    }
}

/// The main screen after `msg`, and what it asks for.
pub open spec fn update_model<C, H>(s: MainView<C, H>, msg: Msg<H>) -> (
    MainView<C, H>,
    Action<TaskView, Never>,
) {
    match msg {
        Msg::ArtistsScreenMsg(inner) => {
            let (a, act) = artists::update_model(s.artists, inner);
            (MainView { artists: a, ..s }, act.mapped(|t: artists::TaskView| TaskView::Artists(t)))
        },
    }
}

/// Calls `Arc::clone`: another pointer to the same value.
#[verifier::external_body]
fn share<C>(client: &Arc<C>) -> (r: Arc<C>)
    ensures
        r == *client,
{
    Arc::clone(client)
}

/// The work of the artists screen, as work of the main screen.
fn artists_task(t: artists::Task) -> (r: Task)
    ensures
        r == Task::Artists(t),
{
    Task::Artists(t)
}

/// Appends `secs` as minutes and seconds.
fn push_duration(out: &mut String, secs: u64)
    ensures
        final(out)@ == old(out)@ + duration_text(secs as nat),
{
    push_two_digits(out, secs / 60);
    proof {
        reveal_strlit(":");
    }
    out.append(":");
    push_two_digits(out, secs % 60);
    proof {
        assert(out@ =~= old(out)@ + duration_text(secs as nat));
    }
}

/// `format!("{:02}:{:02}", secs / 60, secs % 60)`.
pub fn fmt_duration(secs: u64) -> (r: String)
    ensures
        r@ == duration_text(secs as nat),
{
    let mut out = String::new();
    push_duration(&mut out, secs);
    out
}

impl SongPlaying {
    pub fn new(cover: Option<Vec<u8>>, duration: u64, position: u64) -> (r: Self)
        ensures
            r.cover() == cover,
            r.duration() == duration,
            r.position() == position,
    {
        SongPlaying { cover, duration, position }
    }

    pub closed spec fn cover(&self) -> Option<Vec<u8>> {
        self.cover
    }

    pub closed spec fn duration(&self) -> u64 {
        self.duration
    }

    pub closed spec fn position(&self) -> u64 {
        self.position
    }

    pub fn cover_bytes(&self) -> (r: &Option<Vec<u8>>)
        ensures
            *r == self.cover(),
    {
        &self.cover
    }

    /// `"{position} / {duration}"`, each as minutes and seconds.
    pub fn progress(&self) -> (r: String)
        ensures
            r@ == progress_text(self.position() as nat, self.duration() as nat),
    {
        let mut out = String::new();
        push_duration(&mut out, self.position);
        proof {
            reveal_strlit(" / ");
        }
        out.append(" / ");
        push_duration(&mut out, self.duration);
        proof {
            assert(out@ =~= progress_text(self.position() as nat, self.duration() as nat));
        }
        out
    }
}

impl<C, H> Screen for MainScreen<C, H> {
    type Msg = Msg<H>;

    type Emit = Never;

    type InitData = C;

    type Work = Task;

    /// Starts on the artists screen, which asks for the list of artists.
    fn init(data: C) -> (r: (Self, Action<Task, Never>))
        ensures
            r.0@ == init_model::<C, H>(data),
            r.1@ == Action::<TaskView, Never>::Task(TaskView::Artists(artists::TaskView::LoadArtists)),
    {
        let client: Arc<C> = Arc::new(data);
        let (state, action) = artists::State::init(share(&client));
        (
            MainScreen { client, current_screen: SubScreen::Artists(state), now_playing: None },
            action.map_task(artists_task),
        )
    }

    fn update(&mut self, msg: Msg<H>) -> (r: Action<Task, Never>)
        ensures
            (final(self)@, r@) == update_model(old(self)@, msg),
    {
        match msg {
            Msg::ArtistsScreenMsg(inner) => match &mut self.current_screen {
                SubScreen::Artists(screen) => screen.update(inner).map_task(artists_task),
            },
        }
    }
}

impl<C, H> MainScreen<C, H> {


    pub fn client(&self) -> (r: &Arc<C>)
        ensures
            **r == self@.client,
    {
        &self.client
    }

    pub fn current_screen(&self) -> (r: &SubScreen<C, H>)
        ensures
            match *r {
                SubScreen::Artists(s) => s@ == self@.artists,
            },
    {
        &self.current_screen
    }

    pub fn now_playing(&self) -> (r: &Option<SongPlaying>)
        ensures
            *r == self@.now_playing,
    {
        &self.now_playing
    }
}

} // verus!
