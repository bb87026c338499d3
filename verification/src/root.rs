//! The whole client: the login screen until a login succeeds, the main
//! screen after it.
use crate::config::Credentials;
use crate::screen::{self, login, MainScreen};
use crate::{Action, Never, Screen};
use vstd::prelude::*;

verus! {

/// The messages of the client. `C` is the connected client, `H` an image handle.
#[derive(Debug, Clone)]
pub enum Msg<C, H> {
    ScreenLogin(login::Msg<C>),
    ScreenMain(screen::Msg<H>),
    LoggedIn(C),
    /// The icon font was loaded, or failed to load.
    FontLoaded(Result<(), ()>),
}

/// The work that the client asks the runtime for.
#[derive(Debug, Clone)]
pub enum Task<C, H> {
    Login(login::Task),
    Main(screen::Task),
    /// Deliver this message back to `update` at once.
    Done(Msg<C, H>),
}

/// That work as the model sees it.
pub enum TaskView<C, H> {
    Login(login::TaskView),
    Main(screen::TaskView),
    Done(Msg<C, H>),
}

impl<C, H> View for Task<C, H> {
    type V = TaskView<C, H>;

    open spec fn view(&self) -> TaskView<C, H> {
        match self {
            Task::Login(t) => TaskView::Login(t@),
            Task::Main(t) => TaskView::Main(t@),
            Task::Done(msg) => TaskView::Done(*msg),
        }
    }
}

/// Which screen the client shows.
#[derive(Debug, Clone)]
pub enum State<C, H> {
    Login(login::State<C>),
    Main(MainScreen<C, H>),
}

/// The client as the model sees it.
pub enum RootView<C, H> {
    Login(login::LoginView),
    Main(screen::MainView<C, H>),
}

impl<C, H> View for State<C, H> {
    type V = RootView<C, H>;

    open spec fn view(&self) -> RootView<C, H> {
        match self {
            State::Login(s) => RootView::Login(s@),
            State::Main(s) => RootView::Main(s@),
        }
    }
}

/// The optional work, seen through its view.
pub open spec fn task_view<C, H>(t: Option<Task<C, H>>) -> Option<TaskView<C, H>> {
    match t {
        Some(t) => Some(t@),
        None => None,
    }
}

/// What the login screen's action becomes: its work is run, and a client
/// that it hands up comes back as `LoggedIn`.
pub open spec fn from_login<C, H>(a: Action<login::TaskView, C>) -> Option<TaskView<C, H>> {
    match a {
        Action::Nothing => None,
        Action::Task(t) => Some(TaskView::Login(t)),
        Action::Emit(client) => Some(TaskView::Done(Msg::LoggedIn(client))),
    }
}

/// What the main screen's action becomes: its work is run.
pub open spec fn from_main<C, H>(a: Action<screen::TaskView, Never>) -> Option<TaskView<C, H>> {
    match a {
        Action::Task(t) => Some(TaskView::Main(t)),
        _ => None,
    }
}

/// The client that `init` makes, and what it asks for.
pub open spec fn init_model<C, H>(data: Option<Credentials>) -> (RootView<C, H>, Option<TaskView<C, H>>) {
    let (s, a) = login::init_model::<C>(data);
    (
        RootView::Login(s),
        match a {
            Action::Task(t) => Some(TaskView::Login(t)),
            _ => None,
        },
    )
}

/// The client after `msg`, and what it asks for.
pub open spec fn update_model<C, H>(s: RootView<C, H>, msg: Msg<C, H>) -> (
    RootView<C, H>,
    Option<TaskView<C, H>>,
) {
    match msg {
        Msg::FontLoaded(_) => (s, None),
        Msg::ScreenLogin(inner) => match s {
            RootView::Login(l) => {
                let (l2, a) = login::update_model(l, inner);
                (RootView::Login(l2), from_login(a))
            },
            RootView::Main(_) => (s, None),
        },
        Msg::LoggedIn(client) => (
            RootView::Main(screen::init_model(client)),
            Some(TaskView::Main(screen::TaskView::Artists(screen::artists::TaskView::LoadArtists))),
        ),
        Msg::ScreenMain(inner) => match s {
            RootView::Main(m) => {
                let (m2, a) = screen::update_model(m, inner);
                (RootView::Main(m2), from_main(a))
            },
            RootView::Login(_) => (s, None),
        },
    }
}

/// A successful login on the login screen comes back as `LoggedIn` with the
/// same client, which replaces the login screen by a fresh main screen for
/// that client, and the main screen asks for the list of artists.
pub proof fn lemma_login_success_opens_main_screen<C, H>(l: login::LoginView, client: C)
    ensures
        ({
            let (s1, t1) = update_model::<C, H>(
                RootView::Login(l),
                Msg::ScreenLogin(login::Msg::LoginSucessful(client)),
            );
            let (s2, t2) = update_model::<C, H>(s1, Msg::LoggedIn(client));
            &&& s1 == RootView::<C, H>::Login(l)
            &&& t1 == Some(TaskView::<C, H>::Done(Msg::LoggedIn(client)))
            &&& s2 == RootView::<C, H>::Main(screen::init_model(client))
            &&& t2 == Some(
                TaskView::<C, H>::Main(
                    screen::TaskView::Artists(screen::artists::TaskView::LoadArtists),
                ),
            )
        }),
{
}

/// On the login screen, a login-screen message does to the client what it
/// does to the login screen, and the login screen's action is passed on as
/// it is: its work is run unchanged, and a client it hands up comes back as
/// `LoggedIn`.
pub proof fn lemma_login_action_passed_on<C, H>(l: login::LoginView, m: login::Msg<C>)
    ensures
        ({
            let (l2, a) = login::update_model(l, m);
            let (s, t) = update_model::<C, H>(RootView::Login(l), Msg::ScreenLogin(m));
            &&& s == RootView::<C, H>::Login(l2)
            &&& a is Nothing ==> t is None
            &&& a matches Action::Task(w) ==> t == Some(TaskView::<C, H>::Login(w))
            &&& a matches Action::Emit(c) ==> t == Some(TaskView::<C, H>::Done(Msg::LoggedIn(c)))
        }),
{
}

/// Attempting to log in from the login screen asks the runtime to log in
/// with the URL, user and password fields, each in its place.
pub proof fn lemma_attempt_sends_fields<C, H>(l: login::LoginView)
    ensures
        update_model::<C, H>(RootView::Login(l), Msg::ScreenLogin(login::Msg::AttemptLogin)) == (
            RootView::<C, H>::Login(
                login::LoginView { url: l.url, user: l.user, password: l.password, logging_in: true },
            ),
            Some(
                TaskView::<C, H>::Login(
                    login::TaskView { url: l.url, username: l.user, password: l.password },
                ),
            ),
        ),
{
}

/// Starting with stored credentials shows the login screen with them and
/// logs in at once with them, each in its place; starting without shows
/// an empty login screen and asks for nothing.
pub proof fn lemma_start_up<C, H>(data: Option<Credentials>)
    ensures
        data matches Some(c) ==> init_model::<C, H>(data) == (
            RootView::<C, H>::Login(
                login::LoginView {
                    url: c.url@,
                    user: c.username@,
                    password: c.password@,
                    logging_in: true,
                },
            ),
            Some(
                TaskView::<C, H>::Login(
                    login::TaskView { url: c.url@, username: c.username@, password: c.password@ },
                ),
            ),
        ),
        data is None ==> init_model::<C, H>(data) == (
            RootView::<C, H>::Login(
                login::LoginView {
                    url: Seq::empty(),
                    user: Seq::empty(),
                    password: Seq::empty(),
                    logging_in: false,
                },
            ),
            None::<TaskView<C, H>>,
        ),
{
}

/// Once the main screen is shown, no message brings the login screen back.
pub proof fn lemma_main_screen_stays<C, H>(s: RootView<C, H>, msg: Msg<C, H>)
    requires
        s is Main,
    ensures
        update_model(s, msg).0 is Main,
{
}

/// Messages for the screen that is not shown, and the font message, change
/// nothing and ask for nothing.
pub proof fn lemma_stray_messages_ignored<C, H>(s: RootView<C, H>, msg: Msg<C, H>)
    requires
        msg is FontLoaded || (msg is ScreenLogin && s is Main) || (msg is ScreenMain && s is Login),
    ensures
        update_model(s, msg) == (s, None::<TaskView<C, H>>),
{
}

fn login_work<C, H>(t: login::Task) -> (r: Task<C, H>)
    ensures
        r == Task::<C, H>::Login(t),
{
    Task::Login(t)
}

fn main_work<C, H>(t: screen::Task) -> (r: Task<C, H>)
    ensures
        r == Task::<C, H>::Main(t),
{
    Task::Main(t)
}

/// A client handed up by the login screen comes back as `LoggedIn`.
fn logged_in<C, H>(client: C) -> (r: Option<Task<C, H>>)
    ensures
        r == Some(Task::<C, H>::Done(Msg::LoggedIn(client))),
{
    Some(Task::Done(Msg::LoggedIn(client)))
}

/// Nothing handed up by the login screen at start-up is acted on.
fn ignored_client<C, H>(client: C) -> (r: Option<Task<C, H>>)
    ensures
        r is None,
{
    None
}

/// The main screen hands nothing up.
fn ignored_never<C, H>(n: Never) -> (r: Option<Task<C, H>>)
    ensures
        r is None,
{
    None
}

impl<C, H> State<C, H> {
    /// Starts on the login screen, logging in at once with stored credentials.
    pub fn init(data: Option<Credentials>) -> (r: (Self, Option<Task<C, H>>))
        ensures
            (r.0@, task_view(r.1)) == init_model::<C, H>(data),
    {
        let (screen, action) = login::State::<C>::init(data);
        let task = action.handle(login_work::<C, H>, ignored_client::<C, H>);
        (State::Login(screen), task)
    }

    pub fn update(&mut self, msg: Msg<C, H>) -> (r: Option<Task<C, H>>)
        ensures
            (final(self)@, task_view(r)) == update_model(old(self)@, msg),
    {
        match msg {
            Msg::FontLoaded(_) => None,
            Msg::ScreenLogin(inner) => match self {
                State::Login(screen) => screen.update(inner).handle(
                    login_work::<C, H>,
                    logged_in::<C, H>,
                ),
                State::Main(_) => None,
            },
            Msg::LoggedIn(client) => {
                let (screen, action) = MainScreen::init(client);
                *self = State::Main(screen);
                action.handle(main_work::<C, H>, ignored_never::<C, H>)
            },
            Msg::ScreenMain(inner) => match self {
                State::Main(screen) => screen.update(inner).handle(
                    main_work::<C, H>,
                    ignored_never::<C, H>,
                ),
                State::Login(_) => None,
            },
        }
    }
}

} // verus!
