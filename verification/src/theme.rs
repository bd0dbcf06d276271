//! The theme: the styles that themeable components take over.

use vstd::prelude::*;
use crate::style::{Color, Modifier, Style};

verus! {

/// The styles of every themeable component.
#[derive(Clone, Copy)]
pub struct UiTheme {
    pub table: UiTableTheme,
    pub text_edit: UiTextEditTheme,
}

impl Default for UiTheme {
    fn default() -> (theme: Self)
        ensures
            theme == UiTheme::standard(),
    {
        Self { table: UiTableTheme::default(), text_edit: UiTextEditTheme::default() }
    }
}

impl UiTheme {
    /// The theme a component has until another is applied.
    pub open spec fn standard() -> UiTheme {
        UiTheme { table: UiTableTheme::standard(), text_edit: UiTextEditTheme::standard() }
    }
}

/// The style of a text field.
#[derive(Clone, Copy)]
pub struct UiTextEditTheme {
    pub text_style: Style,
}

impl UiTextEditTheme {
    /// White text on black.
    pub open spec fn standard() -> UiTextEditTheme {
        UiTextEditTheme {
            text_style: Style { fg: Some(Color::White), bg: Some(Color::Black), modifier: None },
        }
    }
}

impl Default for UiTextEditTheme {
    fn default() -> (theme: Self)
        ensures
            theme == UiTextEditTheme::standard(),
    {
        Self { text_style: Style::default().fg(Color::White).bg(Color::Black) }
    }
}

/// The styles of a table.
#[derive(Clone, Copy)]
pub struct UiTableTheme {
    pub table_style: Style,
    pub header_style: Style,
    pub highlight_style: Style,
}

impl UiTableTheme {
    /// White rows under a red header, the selected row reversed.
    pub open spec fn standard() -> UiTableTheme {
        UiTableTheme {
            table_style: Style { fg: Some(Color::White), bg: None, modifier: None },
            header_style: Style { fg: Some(Color::Red), bg: None, modifier: None },
            highlight_style: Style { fg: None, bg: None, modifier: Some(Modifier::Reversed) },
        }
    }
}

impl Default for UiTableTheme {
    fn default() -> (theme: Self)
        ensures
            theme == UiTableTheme::standard(),
    {
        Self {
            table_style: Style::default().fg(Color::White),
            header_style: Style::default().fg(Color::Red),
            highlight_style: Style::default().add_modifier(Modifier::Reversed),
        }
    }
}

} // verus!
