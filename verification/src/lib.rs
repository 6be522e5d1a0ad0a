//! The browsing engine of a read-only, terminal based SQLite browser.
//!
//! The crate holds the state of one browsing session and the rules by which
//! it changes: which table or view is selected, which tab is shown, which
//! page of rows is on screen and which cell is highlighted. It performs no
//! input or output of its own. A front end hands it key presses and the
//! outcomes of database reads, and carries out the actions it asks for:
//!
//! 1. A key press goes to [`ui::Ui::handle_input`], which changes the state
//!    and returns an [`ui::input::Action`].
//! 2. For [`ui::input::Action::Fetch`] the front end reads the page that the
//!    request describes, makes a [`page::PageResult`] of it with
//!    [`app::App::select`], and hands the outcome to
//!    [`ui::Ui::load_table_data`]. Only then does the screen change; a failed
//!    read leaves it as it was.
//! 3. For [`ui::input::Action::Open`] the front end reads the schema table of
//!    the file and hands the outcome to [`ui::Ui::open_database`].
//!
//! Every type has a mathematical model as its view, every function says in
//! its contract what it does to the models, and [`ui::table_laws`] proves what
//! holds of the table screen whatever is asked of it.
//!
//! - [`app`]: the open database and its catalog of tables and views
//! - [`cell`]: cell values and the texts in which they are shown
//! - [`decimal`]: whole numbers written out in decimal
//! - [`error`]: the ways in which a session can fail
//! - [`files`]: which files are offered as databases
//! - [`page`]: one page of rows, and the request that asks for it
//! - [`schema`]: the defining text of a relation, laid out for reading
//! - [`ui`]: the file list, the table screen, its tabs and its cursor

pub mod app;
pub mod cell;
pub mod decimal;
pub mod error;
pub mod files;
pub mod page;
pub mod schema;
pub mod ui;
