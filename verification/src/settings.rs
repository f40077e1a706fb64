//! Presentation settings of one graph widget: its titles and axis labels, as
//! plain strings. The drawing layer styles and places them.

use vstd::prelude::*;

verus! {

/// Titles and axis labels of one chart.
pub struct GraphSettings {
    pub title: String,
    pub x_title: String,
    pub y_title: String,
    pub x_labels: Vec<String>,
    pub y_labels: Vec<String>,
}

impl Default for GraphSettings {
    /// Empty titles, no labels.
    fn default() -> (s: GraphSettings)
        ensures
            s.title@ == Seq::<char>::empty(),
            s.x_title@ == Seq::<char>::empty(),
            s.y_title@ == Seq::<char>::empty(),
            s.x_labels@ == Seq::<String>::empty(),
            s.y_labels@ == Seq::<String>::empty(),
    {
        GraphSettings {
            title: String::new(),
            x_title: String::new(),
            y_title: String::new(),
            x_labels: Vec::new(),
            y_labels: Vec::new(),
        }
    }
}

impl GraphSettings {
    /// `Default::default`, for builder-style construction.
    pub fn new() -> (s: GraphSettings)
        ensures
            s.title@ == Seq::<char>::empty(),
            s.x_title@ == Seq::<char>::empty(),
            s.y_title@ == Seq::<char>::empty(),
            s.x_labels@ == Seq::<String>::empty(),
            s.y_labels@ == Seq::<String>::empty(),
    {
        GraphSettings::default()
    }

    /// This, with the chart title set.
    pub fn title(self, title: String) -> (s: GraphSettings)
        ensures
            s == (GraphSettings { title, ..self }),
    {
        GraphSettings { title, ..self }
    }

    /// This, with the x-axis title set.
    pub fn x_title(self, x_axis: String) -> (s: GraphSettings)
        ensures
            s == (GraphSettings { x_title: x_axis, ..self }),
    {
        GraphSettings { x_title: x_axis, ..self }
    }

    /// This, with the y-axis title set.
    pub fn y_title(self, y_axis: String) -> (s: GraphSettings)
        ensures
            s == (GraphSettings { y_title: y_axis, ..self }),
    {
        GraphSettings { y_title: y_axis, ..self }
    }

    /// This, with the x-axis labels set.
    pub fn x_labels(self, x_labels: Vec<String>) -> (s: GraphSettings)
        ensures
            s == (GraphSettings { x_labels, ..self }),
    {
        GraphSettings { x_labels, ..self }
    }

    /// This, with the y-axis labels set.
    pub fn y_labels(self, y_labels: Vec<String>) -> (s: GraphSettings)
        ensures
            s == (GraphSettings { y_labels, ..self }),
    {
        GraphSettings { y_labels, ..self }
    }
}

} // verus!
