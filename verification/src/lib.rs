//! Decision logic of the tab organizer's sidebar: how background messages
//! drive the sidebar session, how pointer events on a tab become commands,
//! the loading and press states of the page, and the texts and styles that
//! the sidebar derives from plain values.

pub mod session;
pub mod pointer;
pub mod press;
pub mod loading;
pub mod decimal;
pub mod appearance;
pub mod location;
