//! The sidebar's position, active menu and attached table settings.

use vstd::prelude::*;

use crate::tickers_table;

verus! {

/// Which edge the sidebar sits on.
#[derive(Debug, Clone, Copy, PartialEq, Eq, Structural, Default)]
pub enum Position {
    #[default]
    Left,
    Right,
}

/// The menus the sidebar can open.
#[derive(Debug, Clone, Copy, PartialEq, Eq, Structural)]
pub enum Menu {
    Layout,
    Settings,
    Audio,
    ThemeEditor,
}

/// The sidebar's persisted state.
#[derive(Debug, Clone)]
pub struct Sidebar {
    pub position: Position,
    pub active_menu: Option<Menu>,
    pub tickers_table: Option<tickers_table::Settings>,
}

impl Sidebar {
    pub fn new() -> (r: Sidebar)
        ensures
            r.position == Position::Left,
            r.active_menu is None,
            r.tickers_table is None,
    {
        Sidebar { position: Position::Left, active_menu: None, tickers_table: None }
    }

    /// Open a menu.
    pub fn set_menu(&mut self, new_menu: Menu)
        ensures
            final(self).active_menu == Some(new_menu),
            final(self).position == old(self).position,
            final(self).tickers_table == old(self).tickers_table,
    {
        self.active_menu = Some(new_menu);
    }

    /// Move the sidebar to an edge.
    pub fn set_position(&mut self, position: Position)
        ensures
            final(self).position == position,
            final(self).active_menu == old(self).active_menu,
            final(self).tickers_table == old(self).tickers_table,
    {
        self.position = position;
    }

    /// Whether a given menu is the open one.
    pub fn is_menu_active(&self, menu: Menu) -> (r: bool)
        ensures
            r == (self.active_menu == Some(menu)),
    {
        match self.active_menu {
            Some(m) => m == menu,
            None => false,
        }
    }

    /// Take over the instrument table's settings.
    pub fn sync_tickers_table_settings(&mut self, settings: &tickers_table::Settings)
        ensures
            final(self).tickers_table is Some,
            final(self).position == old(self).position,
            final(self).active_menu == old(self).active_menu,
    {
        self.tickers_table = Some(settings.clone());
    }
}

} // verus!
