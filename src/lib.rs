//! A desktop application launcher's settings and decisions: the JSON
//! configuration, the theme stylesheet, the window layout, the open and close
//! animations, and the search over installed applications.

pub mod text;
pub mod number;
pub mod conf;
pub mod theme;
pub mod layout;
pub mod animation;
pub mod search;
