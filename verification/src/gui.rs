//! Data and decisions of the user interface: icons, colour themes, widget
//! styles and button builders, resource paths and tab titles.

pub mod theme;
pub mod resource;
pub mod component;
pub mod page;
