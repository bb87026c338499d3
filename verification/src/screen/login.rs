//! The login screen: three text fields and a button. Logging in is work for
//! the runtime (connect to the server, then ping it); its outcome comes back
//! as a message, and a successful login hands the connected client up.
use crate::config::Credentials;
use crate::{Action, Screen};
use std::marker::PhantomData;
use vstd::prelude::*;

verus! {

/// The work of logging in: connect to `url` with token authentication for
/// `username` and `password`, then ping the server.
#[derive(Debug, Clone)]
pub struct Task {
    pub url: String,
    pub username: String,
    pub password: String,
}

/// A login request as the model sees it.
pub struct TaskView {
    pub url: Seq<char>,
    pub username: Seq<char>,
    pub password: Seq<char>,
}

impl View for Task {
    type V = TaskView;

    open spec fn view(&self) -> TaskView {
        TaskView { url: self.url@, username: self.username@, password: self.password@ }
    }
}

/// The messages of the login screen; `C` is the connected client.
#[derive(Debug, Clone)]
pub enum Msg<C> {
    UrlEdit(String),
    UserEdit(String),
    PasswordEdit(String),
    AttemptLogin,
    LoginSucessful(C),
    LoginFailed,
}

/// The state of the login screen, which hands a client of type `C` up once
/// logged in.
#[derive(Debug)]
pub struct State<C> {
    url_field: String,
    user_field: String,
    password_field: String,
    logging_in: bool,
    client: PhantomData<C>,
}

/// The login screen as the model sees it.
pub struct LoginView {
    pub url: Seq<char>,
    pub user: Seq<char>,
    pub password: Seq<char>,
    pub logging_in: bool,
}

impl<C> Clone for State<C> {
    fn clone(&self) -> (r: Self)
        ensures
            r@ == self@,
    {
        State {
            url_field: self.url_field.clone(),
            user_field: self.user_field.clone(),
            password_field: self.password_field.clone(),
            logging_in: self.logging_in,
            client: PhantomData,
        }
    }
}

impl<C> View for State<C> {
    type V = LoginView;

    closed spec fn view(&self) -> LoginView {
        LoginView {
            url: self.url_field@,
            user: self.user_field@,
            password: self.password_field@,
            logging_in: self.logging_in,
        }
    }
}

impl LoginView {
    /// The request that the fields describe.
    pub open spec fn request(self) -> TaskView {
        TaskView { url: self.url, username: self.user, password: self.password }
    }
}

/// The screen that `init` makes, and what it asks for.
pub open spec fn init_model<C>(data: Option<Credentials>) -> (LoginView, Action<TaskView, C>) {
    match data {
        Some(c) => (
            LoginView { url: c.url@, user: c.username@, password: c.password@, logging_in: true },
            Action::Task(TaskView { url: c.url@, username: c.username@, password: c.password@ }),
        ),
        None => (
            LoginView {
                url: Seq::empty(),
                user: Seq::empty(),
                password: Seq::empty(),
                logging_in: false,
            },
            Action::Nothing,
        ),
    }
}

/// The screen after `msg`, and what it asks for.
pub open spec fn update_model<C>(s: LoginView, msg: Msg<C>) -> (LoginView, Action<TaskView, C>) {
    match msg {
        Msg::UrlEdit(new) => (LoginView { url: new@, ..s }, Action::Nothing),
        Msg::UserEdit(new) => (LoginView { user: new@, ..s }, Action::Nothing),
        Msg::PasswordEdit(new) => (LoginView { password: new@, ..s }, Action::Nothing),
        Msg::AttemptLogin => (LoginView { logging_in: true, ..s }, Action::Task(s.request())),
        Msg::LoginSucessful(client) => (s, Action::Emit(client)),
        Msg::LoginFailed => (LoginView { logging_in: false, ..s }, Action::Nothing),
    }
}

/// An attempt to log in sends exactly what the fields hold: the URL field
/// as the URL, the user field as the username and the password field as the
/// password; the fields stay as they are and the screen shows that it is
/// logging in.
pub proof fn lemma_attempt_sends_fields<C>(s: LoginView)
    ensures
        update_model(s, Msg::<C>::AttemptLogin) == (
            LoginView { url: s.url, user: s.user, password: s.password, logging_in: true },
            Action::<TaskView, C>::Task(
                TaskView { url: s.url, username: s.user, password: s.password },
            ),
        ),
{
}

/// Starting with stored credentials shows them in the fields and logs in
/// at once with them, each in its place; starting without shows empty
/// fields and asks for nothing.
pub proof fn lemma_start_up<C>(data: Option<Credentials>)
    ensures
        data matches Some(c) ==> init_model::<C>(data) == (
            LoginView { url: c.url@, user: c.username@, password: c.password@, logging_in: true },
            Action::<TaskView, C>::Task(
                TaskView { url: c.url@, username: c.username@, password: c.password@ },
            ),
        ),
        data is None ==> init_model::<C>(data) == (
            LoginView {
                url: Seq::empty(),
                user: Seq::empty(),
                password: Seq::empty(),
                logging_in: false,
            },
            Action::<TaskView, C>::Nothing,
        ),
{
}

/// An edit changes its own field only, asks for nothing, and leaves the
/// logging-in flag alone; the next attempt sends the edited value with the
/// other two fields as they were.
pub proof fn lemma_edit_then_attempt<C>(s: LoginView, msg: Msg<C>)
    requires
        msg is UrlEdit || msg is UserEdit || msg is PasswordEdit,
    ensures
        ({
            let (edited, a) = update_model(s, msg);
            let (attempting, b) = update_model(edited, Msg::<C>::AttemptLogin);
            &&& a is Nothing
            &&& edited.logging_in == s.logging_in
            &&& edited.url == (if let Msg::UrlEdit(u) = msg { u@ } else { s.url })
            &&& edited.user == (if let Msg::UserEdit(u) = msg { u@ } else { s.user })
            &&& edited.password == (if let Msg::PasswordEdit(p) = msg { p@ } else { s.password })
            &&& attempting.logging_in
            &&& b == Action::<TaskView, C>::Task(edited.request())
        }),
{
}

/// After a failed attempt the fields are as they were, the screen no longer
/// shows that it is logging in, and a new attempt sends the same request.
pub proof fn lemma_retry_after_failure<C>(s: LoginView)
    ensures
        ({
            let (tried, a) = update_model(s, Msg::<C>::AttemptLogin);
            let (failed, b) = update_model(tried, Msg::<C>::LoginFailed);
            let (retried, c) = update_model(failed, Msg::<C>::AttemptLogin);
            &&& b is Nothing
            &&& !failed.logging_in
            &&& failed.request() == s.request()
            &&& retried.logging_in
            &&& c == a
        }),
{
}

/// A successful login hands the client up and changes nothing on the screen.
pub proof fn lemma_success_hands_client_up<C>(s: LoginView, client: C)
    ensures
        update_model(s, Msg::LoginSucessful(client)) == (s, Action::<TaskView, C>::Emit(client)),
{
}

/// Asks the runtime to log in with these values.
pub fn login_task<C>(url: String, username: String, password: String) -> (r: Action<Task, C>)
    ensures
        r == Action::<Task, C>::Task(Task { url, username, password }),
{
    Action::task(Task { url, username, password })
}

/// The message that a login attempt ends with: the client when it was made
/// and the server answered the ping, a failure otherwise.
pub fn login_outcome<C>(client: Option<C>, ping_ok: bool) -> (r: Msg<C>)
    ensures
        ping_ok ==> (client matches Some(c) ==> r == Msg::LoginSucessful(c)),
        !(client is Some && ping_ok) ==> r is LoginFailed,
{
    match client {
        Some(c) => if ping_ok {
            Msg::LoginSucessful(c)
        } else {
            Msg::LoginFailed
        },
        None => Msg::LoginFailed,
    }
}

impl<C> Screen for State<C> {
    type Msg = Msg<C>;

    type Emit = C;

    type InitData = Option<Credentials>;

    type Work = Task;

    /// Starts with the stored credentials, if any, and then logs in with
    /// them at once; starts empty otherwise.
    fn init(data: Option<Credentials>) -> (r: (Self, Action<Task, C>))
        ensures
            (r.0@, r.1@) == init_model::<C>(data),
    {
        match data {
            Some(Credentials { url, username, password }) => {
                let state = State {
                    url_field: url.clone(),
                    user_field: username.clone(),
                    password_field: password.clone(),
                    logging_in: true,
                    client: PhantomData,
                };
                (state, login_task(url, username, password))
            },
            None => {
                let state = State {
                    url_field: String::new(),
                    user_field: String::new(),
                    password_field: String::new(),
                    logging_in: false,
                    client: PhantomData,
                };
                (state, Action::none())
            },
        }
    }

    fn update(&mut self, msg: Msg<C>) -> (r: Action<Task, C>)
        ensures
            (final(self)@, r@) == update_model(old(self)@, msg),
    {
        match msg {
            Msg::UrlEdit(new) => self.url_field = new,
            Msg::UserEdit(new) => self.user_field = new,
            Msg::PasswordEdit(new) => self.password_field = new,
            Msg::AttemptLogin => {
                let url_field = self.url_field.clone();
                let user_field = self.user_field.clone();
                let password_field = self.password_field.clone();
                self.logging_in = true;
                return login_task(url_field, user_field, password_field);
            },
            Msg::LoginSucessful(client) => return Action::Emit(client),
            Msg::LoginFailed => {
                self.logging_in = false;
            },
        }
        Action::none()
    }
}

impl<C> State<C> {


    pub fn url_field(&self) -> (r: &String)
        ensures
            r@ == self@.url,
    {
        &self.url_field
    }

    pub fn user_field(&self) -> (r: &String)
        ensures
            r@ == self@.user,
    {
        &self.user_field
    }

    pub fn password_field(&self) -> (r: &String)
        ensures
            r@ == self@.password,
    {
        &self.password_field
    }

    pub fn logging_in(&self) -> (r: bool)
        ensures
            r == self@.logging_in,
    {
        self.logging_in
    }
}

} // verus!
