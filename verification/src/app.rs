//! The application state and its input state machine.

use vstd::prelude::*;
use vstd::string::StringExecFns;
use crate::postgres::connection_manager::{target, ConnectionManager};
use crate::postgres::credential_manager::{ConnectionOptionsView, CredentialManager};
use crate::postgres::error::{ConnectError, QueryError};
use crate::text::{pop_char, push_char, sorted, sorted_texts, take_text};
use crate::widgets::database::{Database, DatabaseView};
use crate::widgets::database_cluster::{
    lemma_moved_down_is_next_row, lemma_moved_up_is_previous_row, lemma_toggled_connects_at_most_one,
    lemma_with_focused_table_keeps_flags, lemma_with_tables_keeps_flags, ClusterView,
    DatabaseCluster,
};
use crate::widgets::database_table::{DatabaseTable, DatabaseTableView};

verus! {

/// Whether keys edit the input buffer or act as commands.
#[derive(Debug, Clone, Copy, PartialEq, Eq, Structural)]
pub enum InputMode {
    Normal,
    Editing,
}

/// The pane that receives the keys that are no global command.
#[derive(Debug, Clone, Copy, PartialEq, Eq, Structural)]
pub enum FocusElement {
    Explorer,
    Main,
    SearchBar,
}

/// A key press, as far as the state machine tells keys apart.
#[derive(Debug, Clone, Copy, PartialEq, Eq, Structural)]
pub enum Key {
    Char(char),
    Enter,
    Backspace,
    Esc,
    /// Any other key.
    Other,
}

/// Where to connect: the server, the role, and the database.
pub struct PSQLConnectionOptions {
    pub host: String,
    pub user: String,
    pub db_name: String,
}

/// What a [`PSQLConnectionOptions`] holds.
pub struct PSQLConnectionOptionsView {
    pub host: Seq<char>,
    pub user: Seq<char>,
    pub db_name: Seq<char>,
}

impl View for PSQLConnectionOptions {
    type V = PSQLConnectionOptionsView;

    open spec fn view(&self) -> PSQLConnectionOptionsView {
        PSQLConnectionOptionsView { host: self.host@, user: self.user@, db_name: self.db_name@ }
    }
}

/// The text of an optional string.
pub open spec fn optional_text(value: Option<String>) -> Option<Seq<char>> {
    match value {
        Some(text) => Some(text@),
        None => None,
    }
}

/// A setting as configured, or `fallback` where it is unset or empty.
pub open spec fn setting_or(value: Option<Seq<char>>, fallback: Seq<char>) -> Seq<char> {
    match value {
        Some(text) => if text.len() > 0 { text } else { fallback },
        None => fallback,
    }
}

/// A setting as configured, or `fallback` where it is unset or empty.
fn resolve_setting(value: Option<String>, fallback: &str) -> (text: String)
    ensures
        text@ == setting_or(optional_text(value), fallback@),
{
    match value {
        Some(text) => {
            if text.as_str().unicode_len() > 0 {
                text
            } else {
                String::from_str(fallback)
            }
        },
        None => String::from_str(fallback),
    }
}

impl PSQLConnectionOptions {
    /// The options of the first connection, from the values of the
    /// environment variables `PGUSER`, `PGHOST` and `PGDATABASE`. A variable
    /// that is unset or empty gives `postgres`, `localhost` and `postgres`.
    pub fn from_environment(
        user: Option<String>,
        host: Option<String>,
        db_name: Option<String>,
    ) -> (options: PSQLConnectionOptions)
        ensures
            options@ == (PSQLConnectionOptionsView {
                host: setting_or(optional_text(host), "localhost"@),
                user: setting_or(optional_text(user), "postgres"@),
                db_name: setting_or(optional_text(db_name), "postgres"@),
            }),
    {
        PSQLConnectionOptions {
            host: resolve_setting(host, "localhost"),
            user: resolve_setting(user, "postgres"),
            db_name: resolve_setting(db_name, "postgres"),
        }
    }
}

/// What the program around the library has to do after a key.
pub enum Action {
    /// Nothing.
    Idle,
    /// Open a session on the given target and list its tables, then report
    /// both outcomes with [`App::update_connection`].
    Connect(PSQLConnectionOptions),
    /// Fetch the columns and the sample rows of the named table, then report
    /// both outcomes with [`App::open_table`].
    OpenTable(String),
}

/// What an [`Action`] holds.
pub enum ActionView {
    Idle,
    Connect(PSQLConnectionOptionsView),
    OpenTable(Seq<char>),
}

impl View for Action {
    type V = ActionView;

    open spec fn view(&self) -> ActionView {
        match self {
            Action::Idle => ActionView::Idle,
            Action::Connect(options) => ActionView::Connect(options@),
            Action::OpenTable(name) => ActionView::OpenTable(name@),
        }
    }
}

/// Tables of the given names, without columns or rows.
pub open spec fn fresh_tables(names: Seq<Seq<char>>) -> Seq<DatabaseTableView> {
    Seq::new(
        names.len(),
        |i: int| DatabaseTableView { name: names[i], columns: Seq::empty(), rows: Seq::empty() },
    )
}

/// Databases of the given names, not connected and without tables.
pub open spec fn fresh_databases(names: Seq<Seq<char>>) -> Seq<DatabaseView> {
    Seq::new(
        names.len(),
        |i: int| DatabaseView { name: names[i], is_connected: false, tables: Seq::empty() },
    )
}

/// The text of the error of an outcome that carries no value.
pub open spec fn connect_failure(outcome: Result<(), ConnectError>) -> Option<Seq<char>> {
    match outcome {
        Ok(_) => None,
        Err(error) => Some(error.text()),
    }
}

/// A list of names as fetched, or the text of the error that came instead.
pub open spec fn fetched(outcome: Result<Vec<String>, QueryError>) -> Result<Seq<Seq<char>>, Seq<char>> {
    match outcome {
        Ok(names) => Ok(names.deep_view()),
        Err(error) => Err(error.text()),
    }
}

/// The state of the application.
pub struct AppView {
    pub credentials: Map<Seq<char>, ConnectionOptionsView>,
    /// The connection string of the active session.
    pub connection: Seq<char>,
    pub cluster: ClusterView,
    pub debug_message: Seq<char>,
    pub focused_element: FocusElement,
    pub input: Seq<char>,
    pub input_mode: InputMode,
    pub show_debug: bool,
    pub show_keybinds: bool,
    pub should_quit: bool,
    pub user: Seq<char>,
    pub db_name: Seq<char>,
    pub host: Seq<char>,
    pub input_history: Seq<Seq<char>>,
}

impl AppView {
    /// The invariant of the state: that of its cluster.
    pub open spec fn wf(self) -> bool {
        self.cluster.wf()
    }

    /// The state in which the application starts: a session on `options`,
    /// the databases in ascending order of their names, none connected, the
    /// focus on the explorer, normal mode, the help shown.
    pub open spec fn initial(options: PSQLConnectionOptionsView, database_names: Seq<Seq<char>>) -> AppView {
        AppView {
            credentials: Map::empty(),
            connection: target(options),
            cluster: ClusterView {
                databases: fresh_databases(sorted_texts(database_names)),
                database: 0,
                table: None,
            },
            debug_message: "test"@,
            focused_element: FocusElement::Explorer,
            input: Seq::empty(),
            input_mode: InputMode::Normal,
            show_debug: false,
            show_keybinds: true,
            should_quit: false,
            user: options.user,
            db_name: options.db_name,
            host: options.host,
            input_history: Seq::empty(),
        }
    }

    /// The state with `message` in the debug slot and the debug popup shown.
    pub open spec fn with_debug_message(self, message: Seq<char>) -> AppView {
        AppView { debug_message: message, show_debug: true, ..self }
    }

    /// The state after an error with the given text was reported.
    pub open spec fn with_error(self, text: Seq<char>) -> AppView {
        self.with_debug_message("Error encountered: "@ + text)
    }

    /// The target of the session to open for the database `name`.
    pub open spec fn options_for(self, name: Seq<char>) -> PSQLConnectionOptionsView {
        PSQLConnectionOptionsView { host: "localhost"@, user: self.user, db_name: name }
    }

    /// The state after a key in editing mode.
    pub open spec fn after_editing_key(self, key: Key) -> AppView {
        match key {
            Key::Enter => AppView {
                input_history: self.input_history.push(self.input),
                input: Seq::empty(),
                ..self
            },
            Key::Char(c) => AppView { input: self.input.push(c), ..self },
            Key::Backspace => AppView {
                input: if self.input.len() > 0 {
                    self.input.drop_last()
                } else {
                    self.input
                },
                ..self
            },
            Key::Esc => AppView { input_mode: InputMode::Normal, ..self },
            Key::Other => self,
        }
    }

    /// The state after a key in normal mode that is no global command, with
    /// the focus on the explorer.
    pub open spec fn after_explorer_key(self, key: Key) -> AppView {
        match key {
            Key::Enter => AppView { cluster: self.cluster.toggled(), ..self },
            Key::Char(c) => if c == 'j' {
                AppView { cluster: self.cluster.moved_down(), ..self }
            } else if c == 'k' {
                AppView { cluster: self.cluster.moved_up(), ..self }
            } else {
                self
            },
            _ => self,
        }
    }

    /// What the program has to do after such a key.
    pub open spec fn explorer_action(self, key: Key) -> ActionView {
        match key {
            Key::Enter => match self.cluster.toggled().connected_name() {
                Some(name) => ActionView::Connect(self.options_for(name)),
                None => ActionView::Idle,
            },
            Key::Char(c) => if c == 'o' {
                match self.cluster.focused_table() {
                    Some(table) => ActionView::OpenTable(table.name),
                    None => ActionView::Idle,
                }
            } else {
                ActionView::Idle
            },
            _ => ActionView::Idle,
        }
    }

    /// The state after a key in normal mode that is no global command, with
    /// the focus on the search bar.
    pub open spec fn after_searchbar_key(self, key: Key) -> AppView {
        match key {
            Key::Char(c) => if c == 'i' {
                AppView { input_mode: InputMode::Editing, ..self }
            } else {
                self
            },
            Key::Esc => AppView { input_mode: InputMode::Normal, ..self },
            _ => self,
        }
    }

    /// Whether `key` is a command that normal mode takes whatever the focus.
    pub open spec fn is_global(key: Key) -> bool {
        key matches Key::Char(c) && (c == '1' || c == '2' || c == '3' || c == 'q' || c == '?' || c
            == 'd')
    }

    /// The state after a key in normal mode.
    pub open spec fn after_normal_key(self, key: Key) -> AppView {
        match key {
            Key::Char(c) => if c == '1' {
                AppView { focused_element: FocusElement::Explorer, ..self }
            } else if c == '2' {
                AppView { focused_element: FocusElement::SearchBar, ..self }
            } else if c == '3' {
                AppView { focused_element: FocusElement::Main, ..self }
            } else if c == 'q' {
                AppView { should_quit: true, ..self }
            } else if c == '?' {
                AppView { show_keybinds: !self.show_keybinds, ..self }
            } else if c == 'd' {
                AppView { show_debug: !self.show_debug, ..self }
            } else {
                self.after_focus_key(key)
            },
            _ => self.after_focus_key(key),
        }
    }

    /// The state after a key that goes to the focused pane.
    pub open spec fn after_focus_key(self, key: Key) -> AppView {
        match self.focused_element {
            FocusElement::Main => self,
            FocusElement::Explorer => self.after_explorer_key(key),
            FocusElement::SearchBar => self.after_searchbar_key(key),
        }
    }

    /// The state after a key. Once the quit flag is set no key changes it;
    /// the input mode decides before the focus does.
    pub open spec fn after_key(self, key: Key) -> AppView {
        if self.should_quit {
            self
        } else {
            match self.input_mode {
                InputMode::Normal => self.after_normal_key(key),
                InputMode::Editing => self.after_editing_key(key),
            }
        }
    }

    /// What the program has to do after a key.
    pub open spec fn action_of_key(self, key: Key) -> ActionView {
        if !self.should_quit && self.input_mode == InputMode::Normal && !Self::is_global(key)
            && self.focused_element == FocusElement::Explorer {
            self.explorer_action(key)
        } else {
            ActionView::Idle
        }
    }

    /// The state after the attempt to switch to the database `name`:
    /// `failure` is the error of opening the session, if it failed, and
    /// `tables` what listing the tables gave. A session that was opened
    /// becomes the active one. Each error is reported, the later one last.
    /// The first database called `name` gets the tables listed, in ascending
    /// order of their names, or none where listing failed.
    pub open spec fn after_connection(
        self,
        name: Seq<char>,
        failure: Option<Seq<char>>,
        tables: Result<Seq<Seq<char>>, Seq<char>>,
    ) -> AppView {
        let connected = match failure {
            None => AppView { connection: target(self.options_for(name)), ..self },
            Some(text) => self.with_error(text),
        };
        let listed = match tables {
            Ok(_) => connected,
            Err(text) => connected.with_error(text),
        };
        let names = match tables {
            Ok(names) => sorted_texts(names),
            Err(_) => Seq::empty(),
        };
        AppView { cluster: listed.cluster.with_tables(name, fresh_tables(names)), ..listed }
    }

    /// The state after the columns and the sample rows of the focused table
    /// were fetched. What was fetched goes into that table; an error is
    /// reported in the debug slot, the later one last. Without a focused
    /// table nothing changes.
    pub open spec fn after_table_opened(
        self,
        columns: Result<Seq<Seq<char>>, Seq<char>>,
        rows: Result<Seq<Seq<char>>, Seq<char>>,
    ) -> AppView {
        if self.cluster.focused_table() is None {
            self
        } else {
            let with_columns = match columns {
                Ok(names) => AppView { cluster: self.cluster.with_focused_columns(names), ..self },
                Err(text) => self.with_debug_message("Error: "@ + text),
            };
            match rows {
                Ok(texts) => AppView {
                    cluster: with_columns.cluster.with_focused_rows(texts),
                    ..with_columns
                },
                Err(text) => with_columns.with_debug_message("Got an error: "@ + text),
            }
        }
    }
}

/// The application: everything the panes show and the keys change.
pub struct App {
    pub credential_manager: CredentialManager,
    pub connection_manager: ConnectionManager,
    pub cluster: DatabaseCluster,
    pub debug_message: String,
    pub focused_element: FocusElement,
    pub input: String,
    pub input_mode: InputMode,
    pub show_debug: bool,
    pub show_keybinds: bool,
    pub should_quit: bool,
    pub user: String,
    pub db_name: String,
    pub host: String,
    /// The lines committed from the input buffer, oldest first.
    pub input_history: Vec<String>,
}

impl View for App {
    type V = AppView;

    open spec fn view(&self) -> AppView {
        AppView {
            credentials: self.credential_manager@,
            connection: self.connection_manager@,
            cluster: self.cluster@,
            debug_message: self.debug_message@,
            focused_element: self.focused_element,
            input: self.input@,
            input_mode: self.input_mode,
            show_debug: self.show_debug,
            show_keybinds: self.show_keybinds,
            should_quit: self.should_quit,
            user: self.user@,
            db_name: self.db_name@,
            host: self.host@,
            input_history: self.input_history.deep_view(),
        }
    }
}

/// Tables of the given names, without columns or rows.
fn tables_named(names: Vec<String>) -> (tables: Vec<DatabaseTable>)
    ensures
        tables.deep_view() == fresh_tables(names.deep_view()),
{
    let mut tables: Vec<DatabaseTable> = Vec::new();
    let mut i: usize = 0;
    while i < names.len()
        invariant
            i <= names.len(),
            tables.len() == i,
            forall|j: int|
                0 <= j < i ==> (#[trigger] tables[j])@ == fresh_tables(names.deep_view())[j],
        decreases names.len() - i,
    {
        let table = DatabaseTable::new(names[i].clone(), Vec::new());
        assert(table.columns.deep_view() =~= Seq::<Seq<char>>::empty());
        tables.push(table);
        i = i + 1;
    }
    assert(tables.deep_view() =~= fresh_tables(names.deep_view()));
    tables
}

/// Databases of the given names, not connected and without tables.
fn databases_named(names: Vec<String>) -> (databases: Vec<Database>)
    ensures
        databases.deep_view() == fresh_databases(names.deep_view()),
{
    let mut databases: Vec<Database> = Vec::new();
    let mut i: usize = 0;
    while i < names.len()
        invariant
            i <= names.len(),
            databases.len() == i,
            forall|j: int|
                0 <= j < i ==> (#[trigger] databases[j])@ == fresh_databases(names.deep_view())[j],
        decreases names.len() - i,
    {
        let database = Database::new(names[i].clone(), Vec::new());
        assert(database.tables.deep_view() =~= Seq::<DatabaseTableView>::empty());
        databases.push(database);
        i = i + 1;
    }
    assert(databases.deep_view() =~= fresh_databases(names.deep_view()));
    databases
}

impl App {
    /// The application at its start, once the first session is open on
    /// `options` and the server has listed the databases `database_names`.
    pub fn new(options: PSQLConnectionOptions, database_names: Vec<String>) -> (app: App)
        ensures
            app@ == AppView::initial(options@, database_names.deep_view()),
            app@.wf(),
    {
        let databases = databases_named(sorted(database_names));
        let user = options.user.clone();
        let db_name = options.db_name.clone();
        let host = options.host.clone();
        let app = App {
            credential_manager: CredentialManager::new(),
            connection_manager: ConnectionManager::new(options),
            cluster: DatabaseCluster::new(databases),
            debug_message: String::from_str("test"),
            focused_element: FocusElement::Explorer,
            input: String::new(),
            input_mode: InputMode::Normal,
            show_debug: false,
            show_keybinds: true,
            should_quit: false,
            user,
            db_name,
            host,
            input_history: Vec::new(),
        };
        assert(app.input_history.deep_view() =~= Seq::<Seq<char>>::empty());
        app
    }

    /// Takes one key. The result says what the program has to do before it
    /// hands in the next key.
    pub fn register_keybinds(&mut self, key: Key) -> (action: Action)
        requires
            old(self)@.wf(),
        ensures
            final(self)@ == old(self)@.after_key(key),
            action@ == old(self)@.action_of_key(key),
            final(self)@.wf(),
    {
        if self.should_quit {
            return Action::Idle;
        }
        match self.input_mode {
            InputMode::Normal => {
                match key {
                    Key::Char(c) => {
                        if c == '1' {
                            self.focused_element = FocusElement::Explorer;
                            return Action::Idle;
                        } else if c == '2' {
                            self.focused_element = FocusElement::SearchBar;
                            return Action::Idle;
                        } else if c == '3' {
                            self.focused_element = FocusElement::Main;
                            return Action::Idle;
                        } else if c == 'q' {
                            self.should_quit = true;
                            return Action::Idle;
                        } else if c == '?' {
                            self.show_keybinds = !self.show_keybinds;
                            return Action::Idle;
                        } else if c == 'd' {
                            self.show_debug = !self.show_debug;
                            return Action::Idle;
                        }
                    },
                    _ => {},
                }
                match self.focused_element {
                    FocusElement::Main => {
                        self.register_main_keybinds(key);
                        Action::Idle
                    },
                    FocusElement::Explorer => self.register_explorer_keybinds(key),
                    FocusElement::SearchBar => {
                        self.register_searchbar_keybinds(key);
                        Action::Idle
                    },
                }
            },
            InputMode::Editing => {
                self.register_edit_mode_keybinds(key);
                Action::Idle
            },
        }
    }

    /// Takes one key in editing mode: `Enter` commits the buffer to the
    /// history and empties it, a character goes to the end of the buffer,
    /// `Backspace` removes the last character, `Esc` leaves the mode.
    pub fn register_edit_mode_keybinds(&mut self, key: Key)
        ensures
            final(self)@ == old(self)@.after_editing_key(key),
    {
        match key {
            Key::Enter => {
                let line = take_text(&mut self.input);
                self.input_history.push(line);
                assert(self.input_history.deep_view() =~= old(self).input_history.deep_view().push(
                    old(self).input@,
                ));
            },
            Key::Char(c) => {
                push_char(&mut self.input, c);
            },
            Key::Backspace => {
                let _ = pop_char(&mut self.input);
            },
            Key::Esc => {
                self.input_mode = InputMode::Normal;
            },
            Key::Other => {},
        }
    }

    /// Takes one key for the explorer: `Enter` switches the database, `j`
    /// and `k` move the focus down and up, `o` opens the focused table.
    pub fn register_explorer_keybinds(&mut self, key: Key) -> (action: Action)
        requires
            old(self)@.wf(),
        ensures
            final(self)@ == old(self)@.after_explorer_key(key),
            action@ == old(self)@.explorer_action(key),
            final(self)@.wf(),
    {
        match key {
            Key::Enter => self.select_database(),
            Key::Char(c) => {
                if c == 'j' {
                    self.cluster.next();
                    Action::Idle
                } else if c == 'k' {
                    self.cluster.prev();
                    Action::Idle
                } else if c == 'o' {
                    match self.cluster.select_focused_table() {
                        Some(table) => Action::OpenTable(table.name.clone()),
                        None => Action::Idle,
                    }
                } else {
                    Action::Idle
                }
            },
            _ => Action::Idle,
        }
    }

    /// Takes one key for the main pane, which has no bindings.
    pub fn register_main_keybinds(&mut self, key: Key)
        ensures
            final(self)@ == old(self)@,
    {
    }

    /// Takes one key for the search bar: `i` enters editing mode.
    pub fn register_searchbar_keybinds(&mut self, key: Key)
        ensures
            final(self)@ == old(self)@.after_searchbar_key(key),
    {
        match key {
            Key::Char(c) => {
                if c == 'i' {
                    self.input_mode = InputMode::Editing;
                }
            },
            Key::Esc => {
                self.input_mode = InputMode::Normal;
            },
            _ => {},
        }
    }

    /// Toggles the focused database. Where that connects it, the result
    /// asks for a session on it.
    pub fn select_database(&mut self) -> (action: Action)
        requires
            old(self)@.wf(),
        ensures
            final(self)@ == (AppView { cluster: old(self)@.cluster.toggled(), ..old(self)@ }),
            action@ == old(self)@.explorer_action(Key::Enter),
            final(self)@.wf(),
    {
        self.cluster.toggle_focused_database();
        match self.cluster.connected_database_name() {
            Some(name) => Action::Connect(self.connection_options_for(name)),
            None => Action::Idle,
        }
    }

    /// The target of the session to open for the database `name`.
    pub fn connection_options_for(&self, name: String) -> (options: PSQLConnectionOptions)
        ensures
            options@ == self@.options_for(name@),
    {
        PSQLConnectionOptions {
            host: String::from_str("localhost"),
            user: self.user.clone(),
            db_name: name,
        }
    }

    /// Takes the outcomes of switching to `database_name`: that of opening
    /// the session, and that of listing the tables.
    pub fn update_connection(
        &mut self,
        database_name: &String,
        connection: Result<(), ConnectError>,
        tables: Result<Vec<String>, QueryError>,
    )
        requires
            old(self)@.wf(),
        ensures
            final(self)@ == old(self)@.after_connection(
                database_name@,
                connect_failure(connection),
                fetched(tables),
            ),
            final(self)@.wf(),
    {
        let options = self.connection_options_for(database_name.clone());
        let opened = self.connection_manager.create_database_connection(options, connection);
        let opened = match opened {
            Ok(done) => Ok(done),
            Err(error) => Err(error.message()),
        };
        let _ = self.handle_error_with_debug(opened);
        let listed = match tables {
            Ok(names) => Ok(names),
            Err(error) => Err(error.message()),
        };
        let names = match self.handle_error_with_debug(listed) {
            Some(names) => sorted(names),
            None => Vec::new(),
        };
        proof {
            if tables is Err {
                assert(names.deep_view() =~= Seq::<Seq<char>>::empty());
            }
        }
        self.cluster.set_tables(database_name, tables_named(names));
    }

    /// Takes the outcomes of fetching the focused table: that of listing
    /// its columns, and that of fetching its sample rows.
    pub fn open_table(
        &mut self,
        columns: Result<Vec<String>, QueryError>,
        data: Result<Vec<String>, QueryError>,
    )
        requires
            old(self)@.wf(),
        ensures
            final(self)@ == old(self)@.after_table_opened(fetched(columns), fetched(data)),
            final(self)@.wf(),
    {
        if self.cluster.select_focused_table().is_none() {
            return ;
        }
        match columns {
            Ok(names) => {
                self.cluster.set_focused_columns(names);
            },
            Err(error) => {
                let message = String::from_str("Error: ").concat(error.message().as_str());
                self.show_debug_message(message);
            },
        }
        match data {
            Ok(rows) => {
                self.cluster.set_focused_rows(rows);
            },
            Err(error) => {
                let message = String::from_str("Got an error: ").concat(error.message().as_str());
                self.show_debug_message(message);
            },
        }
    }

    /// Puts `message` in the debug slot and shows the debug popup.
    pub fn show_debug_message(&mut self, message: String)
        ensures
            final(self)@ == old(self)@.with_debug_message(message@),
    {
        self.debug_message = message;
        self.show_debug = true;
    }

    /// Hands on the value of an outcome. An error is reported in the debug
    /// slot instead, with the debug popup shown.
    pub fn handle_error_with_debug<T>(&mut self, result: Result<T, String>) -> (value: Option<T>)
        ensures
            match result {
                Ok(v) => value == Some(v) && final(self)@ == old(self)@,
                Err(text) => value is None && final(self)@ == old(self)@.with_error(text@),
            },
    {
        match result {
            Ok(v) => Some(v),
            Err(text) => {
                self.debug_message = String::from_str("Error encountered: ").concat(text.as_str());
                self.show_debug = true;
                None
            },
        }
    }
}

/// One thing that happens to the application: a key, or the report of what
/// the program did for an earlier key.
pub enum Input {
    Key(Key),
    /// The outcomes of switching to the database `name`.
    Connection {
        name: Seq<char>,
        failure: Option<Seq<char>>,
        tables: Result<Seq<Seq<char>>, Seq<char>>,
    },
    /// The outcomes of fetching the focused table.
    Table { columns: Result<Seq<Seq<char>>, Seq<char>>, rows: Result<Seq<Seq<char>>, Seq<char>> },
}

impl AppView {
    /// The state after one input.
    pub open spec fn after(self, input: Input) -> AppView {
        match input {
            Input::Key(key) => self.after_key(key),
            Input::Connection { name, failure, tables } => self.after_connection(
                name,
                failure,
                tables,
            ),
            Input::Table { columns, rows } => self.after_table_opened(columns, rows),
        }
    }

    /// The state after the inputs, taken in order.
    pub open spec fn after_all(self, inputs: Seq<Input>) -> AppView
        decreases inputs.len(),
    {
        if inputs.len() == 0 {
            self
        } else {
            self.after(inputs[0]).after_all(inputs.drop_first())
        }
    }
}

/// The key that types `c`.
pub open spec fn pressed(c: char) -> Input {
    Input::Key(Key::Char(c))
}

/// The keys that type `text`.
pub open spec fn typing(text: Seq<char>) -> Seq<Input> {
    Seq::new(text.len(), |i: int| pressed(text[i]))
}

/// No input breaks the invariant: after it the focus is still on a row that
/// exists and at most one database is connected.
pub proof fn lemma_input_keeps_invariant(state: AppView, input: Input)
    requires
        state.wf(),
    ensures
        state.after(input).wf(),
{
    let cluster = state.cluster;
    lemma_toggled_connects_at_most_one(cluster);
    if cluster.databases.len() > 0 {
        lemma_moved_down_is_next_row(cluster);
        lemma_moved_up_is_previous_row(cluster);
    }
    match input {
        Input::Key(key) => {},
        Input::Connection { name, failure, tables } => {
            let names = match tables {
                Ok(names) => sorted_texts(names),
                Err(_) => Seq::empty(),
            };
            lemma_with_tables_keeps_flags(cluster, name, fresh_tables(names));
        },
        Input::Table { columns, rows } => {
            match cluster.focused_table() {
                Some(table) => {
                    match columns {
                        Ok(names) => {
                            let first = DatabaseTableView { columns: names, ..table };
                            lemma_with_focused_table_keeps_flags(cluster, first);
                            let second = cluster.with_focused_table(first);
                            match rows {
                                Ok(texts) => {
                                    lemma_with_focused_table_keeps_flags(
                                        second,
                                        DatabaseTableView { rows: texts, ..second.focused_table()->0 },
                                    );
                                },
                                Err(_) => {},
                            }
                        },
                        Err(_) => {
                            match rows {
                                Ok(texts) => {
                                    lemma_with_focused_table_keeps_flags(
                                        cluster,
                                        DatabaseTableView { rows: texts, ..table },
                                    );
                                },
                                Err(_) => {},
                            }
                        },
                    }
                },
                None => {},
            }
        },
    }
}

/// At most one database is connected at any time: from a state that meets
/// the invariant, whatever keys are pressed and whatever the program
/// reports, in whatever order, no two databases are connected afterwards.
pub proof fn lemma_at_most_one_connected(state: AppView, inputs: Seq<Input>)
    requires
        state.wf(),
    ensures
        state.after_all(inputs).wf(),
        state.after_all(inputs).cluster.at_most_one_connected(),
    decreases inputs.len(),
{
    if inputs.len() > 0 {
        lemma_input_keeps_invariant(state, inputs[0]);
        lemma_at_most_one_connected(state.after(inputs[0]), inputs.drop_first());
    }
}

/// `Enter` in the explorer leaves at most one database connected even where
/// more were connected before it.
pub proof fn lemma_enter_connects_at_most_one(state: AppView)
    requires
        state.cluster.focus_valid(),
        !state.should_quit,
        state.input_mode == InputMode::Normal,
        state.focused_element == FocusElement::Explorer,
    ensures
        state.after_key(Key::Enter).cluster.at_most_one_connected(),
{
    lemma_toggled_connects_at_most_one(state.cluster);
}

/// `q` in normal mode sets the quit flag, whatever has the focus, changes
/// nothing else and asks for nothing.
pub proof fn lemma_quit(state: AppView)
    requires
        state.input_mode == InputMode::Normal,
    ensures
        state.after_key(Key::Char('q')) == (AppView { should_quit: true, ..state }),
        state.action_of_key(Key::Char('q')) == ActionView::Idle,
{
}

/// Once the quit flag is set no key changes the state or asks for anything.
pub proof fn lemma_quit_is_final(state: AppView, key: Key)
    requires
        state.should_quit,
    ensures
        state.after_key(key) == state,
        state.action_of_key(key) == ActionView::Idle,
{
}

/// `i` in normal mode enters editing mode where the search bar has the
/// focus and changes nothing else; with the focus on the explorer or the
/// main pane it changes nothing. It never asks for anything.
pub proof fn lemma_editing_starts_in_the_search_bar(state: AppView)
    requires
        state.input_mode == InputMode::Normal,
        !state.should_quit,
    ensures
        state.focused_element == FocusElement::SearchBar ==> state.after_key(Key::Char('i')) == (
        AppView { input_mode: InputMode::Editing, ..state }),
        state.focused_element != FocusElement::SearchBar ==> state.after_key(Key::Char('i'))
            == state,
        state.action_of_key(Key::Char('i')) == ActionView::Idle,
{
}

/// Typing and `Enter` in editing mode commit the line: the history gets one
/// more line, the buffer as it was followed by what was typed, the buffer is
/// empty, and nothing else changes.
pub proof fn lemma_typed_line_is_committed(state: AppView, text: Seq<char>)
    requires
        state.input_mode == InputMode::Editing,
        !state.should_quit,
    ensures
        state.after_all(typing(text).push(Input::Key(Key::Enter))) == (AppView {
            input_history: state.input_history.push(state.input + text),
            input: Seq::empty(),
            ..state
        }),
    decreases text.len(),
{
    let inputs = typing(text).push(Input::Key(Key::Enter));
    assert(typing(text).len() == text.len());
    assert(inputs.len() == text.len() + 1);
    if text.len() == 0 {
        assert(inputs[0] == Input::Key(Key::Enter));
        assert(inputs.drop_first() =~= Seq::<Input>::empty());
        assert(state.input + text =~= state.input);
        let committed = state.after(inputs[0]);
        assert(committed.after_all(inputs.drop_first()) == committed);
    } else {
        assert(inputs[0] == typing(text)[0]);
        let typed = state.after(inputs[0]);
        assert(typed == AppView { input: state.input.push(text[0]), ..state });
        assert(typing(text.drop_first()).len() == text.len() - 1);
        assert(inputs.drop_first() =~= typing(text.drop_first()).push(Input::Key(Key::Enter)));
        lemma_typed_line_is_committed(typed, text.drop_first());
        assert(typed.input + text.drop_first() =~= state.input + text);
    }
}

/// A session that could not be opened is visible and harmless: the debug
/// slot holds a message that is not empty, the debug popup is shown, the
/// active session is the one it was, and every database has the connected
/// flag it had.
pub proof fn lemma_failed_connection_is_visible(
    state: AppView,
    name: Seq<char>,
    failure: Seq<char>,
    tables: Result<Seq<Seq<char>>, Seq<char>>,
)
    requires
        state.wf(),
    ensures
        state.after_connection(name, Some(failure), tables).show_debug,
        state.after_connection(name, Some(failure), tables).debug_message.len() > 0,
        state.after_connection(name, Some(failure), tables).connection == state.connection,
        state.after_connection(name, Some(failure), tables).cluster.databases.len()
            == state.cluster.databases.len(),
        forall|i: int|
            0 <= i < state.cluster.databases.len() ==> (#[trigger] state.after_connection(
                name,
                Some(failure),
                tables,
            ).cluster.databases[i]).is_connected == state.cluster.databases[i].is_connected,
{
    reveal_strlit("Error encountered: ");
    let names = match tables {
        Ok(names) => sorted_texts(names),
        Err(_) => Seq::empty(),
    };
    lemma_with_tables_keeps_flags(state.cluster, name, fresh_tables(names));
}

} // verus!
