//! A fixed-size worker pool whose dispatch and shutdown decisions are
//! verified (`pool`, with what holds over whole runs in `guarantees`), the
//! decisions of the web server that feeds it (`http`), and a set of smaller
//! verified pieces: a line search, text utilities, a blog post workflow,
//! summaries, screens of drawable components and more.

pub mod pool;
pub mod guarantees;
pub mod http;
pub mod text;
pub mod minigrep;
pub mod units;
pub mod words;
pub mod colors;
pub mod shirts;
pub mod limits;
pub mod basics;
pub mod shapes;
pub mod enemy;
pub mod blog;
pub mod aggregator;
pub mod gui;
pub mod advanced_traits;
pub mod restaurant;
pub mod pointers;
