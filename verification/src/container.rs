//! The rectangular screen region the simulation lives in.

use vstd::prelude::*;
use core::ops::Range;
use crate::entities::Location;

verus! {

/// Bounds of the visible area: a half-open range of lines and of columns.
pub struct Container {
    /// Visible lines, `start` inclusive to `end` exclusive.
    pub lines: Range<u16>,
    /// Visible columns, `start` inclusive to `end` exclusive.
    pub columns: Range<u16>,
}

impl Container {
    /// Builds the container from its two half-open ranges.
    pub fn new(lines: Range<u16>, columns: Range<u16>) -> (r: Self)
        ensures
            r.lines == lines,
            r.columns == columns,
    {
        Container { lines, columns }
    }

    /// The range of visible lines.
    pub fn lines(&self) -> (r: &Range<u16>)
        ensures
            r == self.lines,
    {
        &self.lines
    }

    /// The range of visible columns.
    pub fn columns(&self) -> (r: &Range<u16>)
        ensures
            r == self.columns,
    {
        &self.columns
    }

    /// Whether both coordinates fall inside the container.
    pub fn contains(&self, line: u16, column: u16) -> (r: bool)
        ensures
            r == (self.lines.start <= line < self.lines.end
                && self.columns.start <= column < self.columns.end),
    {
        self.lines.start <= line && line < self.lines.end && self.columns.start <= column
            && column < self.columns.end
    }

    /// Whether the line lies strictly below the top border.
    pub fn is_under(&self, line: u16) -> (r: bool)
        ensures
            r == (line > self.lines.start),
    {
        line > self.lines.start
    }

    /// Whether the line lies strictly above the bottom border.
    pub fn is_upper(&self, line: u16) -> (r: bool)
        ensures
            r == (line < self.lines.end),
    {
        line < self.lines.end
    }

    /// Whether the column lies strictly right of the left border.
    pub fn is_righter(&self, column: u16) -> (r: bool)
        ensures
            r == (column > self.columns.start),
    {
        column > self.columns.start
    }

    /// Whether the column lies strictly left of the left border.
    pub fn is_lefter(&self, column: u16) -> (r: bool)
        ensures
            r == (column < self.columns.start),
    {
        column < self.columns.start
    }

    /// `contains` applied to a location's coordinates.
    pub fn contains_loc(&self, location: &Location) -> (r: bool)
        ensures
            r == (self.lines.start <= location.line < self.lines.end
                && self.columns.start <= location.column < self.columns.end),
    {
        self.contains(location.line, location.column)
    }

    /// `is_under` applied to a location's line.
    pub fn is_under_loc(&self, location: &Location) -> (r: bool)
        ensures
            r == (location.line > self.lines.start),
    {
        self.is_under(location.line)
    }

    /// `is_upper` applied to a location's line.
    pub fn is_upper_loc(&self, location: &Location) -> (r: bool)
        ensures
            r == (location.line < self.lines.end),
    {
        self.is_upper(location.line)
    }

    /// `is_righter` applied to a location's column.
    pub fn is_righter_loc(&self, location: &Location) -> (r: bool)
        ensures
            r == (location.column > self.columns.start),
    {
        self.is_righter(location.column)
    }

    /// `is_lefter` applied to a location's column.
    pub fn is_lefter_loc(&self, location: &Location) -> (r: bool)
        ensures
            r == (location.column < self.columns.start),
    {
        self.is_lefter(location.column)
    }
}

} // verus!
