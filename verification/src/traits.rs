//! The capability traits containers and interactive widgets satisfy, and
//! their implementations for the concrete widget kinds.
//!
//! Each trait exposes a spec-level view of the capability (the child
//! sequence, the registered action key, the text) and executable accessors
//! contracted against that view.

use vstd::prelude::*;
use crate::widgets::anywidget::AnyWidget;
use crate::widgets::button::Button;
use crate::widgets::centeringbox::CenteringBox;
use crate::widgets::frame::Frame;
use crate::widgets::hbox::HBox;
use crate::widgets::label::Label;
use crate::widgets::layout::Layout;
use crate::widgets::marginbox::MarginBox;
use crate::widgets::vbox::VBox;

verus! {

/// A widget that can contain other widgets.
pub trait ContainerTrait {
    /// The contained children, in display/insertion order.
    spec fn children_view(&self) -> Seq<AnyWidget>;

    /// How many children the container holds.
    fn child_count(&self) -> (n: usize)
        ensures
            n == self.children_view().len(),
    ;

    /// The `i`-th child, in display order; read-only access.
    fn child_at(&self, i: usize) -> (w: &AnyWidget)
        requires
            i < self.children_view().len(),
        ensures
            *w == self.children_view()[i as int],
    ;
}

/// A container widget with at most one child.
pub trait OneChildContainerTrait: ContainerTrait {
    /// Read-only access to the sole child, if present.
    fn with_child(&self) -> (c: Option<&AnyWidget>)
        ensures
            match c {
                Some(w) => self.children_view().len() == 1 && *w == self.children_view()[0],
                None => self.children_view().len() == 0,
            },
    ;
}

/// A widget with a click callback.
pub trait ButtonTrait {
    /// The registered click callback's action key, if any.
    spec fn click_action_view(&self) -> Option<u64>;

    /// Register (or replace) the click callback, by its action key.
    fn on_clicked(&mut self, action: u64)
        ensures
            final(self).click_action_view() == Some(action),
    ;
}

/// A widget holding a line of text.
pub trait TextTrait {
    /// The displayed text.
    spec fn text_view(&self) -> Seq<char>;

    /// The measured pixel size of the displayed text.
    spec fn text_size_view(&self) -> (u32, u32);

    /// Replace the text; `text_size` is the pixel size the backend
    /// measured for the new text.
    fn set_text(&mut self, new_text: &str, text_size: (u32, u32))
        ensures
            final(self).text_view() == new_text@,
            final(self).text_size_view() == text_size,
    ;

    /// The current text.
    fn get_text(&self) -> (t: String)
        ensures
            t@ == self.text_view(),
    ;
}

impl ContainerTrait for HBox {
    open spec fn children_view(&self) -> Seq<AnyWidget> {
        self.children@.map_values(|c: (AnyWidget, bool)| c.0)
    }

    fn child_count(&self) -> (n: usize)
        ensures
            n == self.children_view().len(),
    {
        self.children.len()
    }

    fn child_at(&self, i: usize) -> (w: &AnyWidget)
        ensures
            *w == self.children_view()[i as int],
    {
        &self.children[i].0
    }
}

impl ContainerTrait for VBox {
    open spec fn children_view(&self) -> Seq<AnyWidget> {
        self.children@.map_values(|c: (AnyWidget, bool)| c.0)
    }

    fn child_count(&self) -> (n: usize)
        ensures
            n == self.children_view().len(),
    {
        self.children.len()
    }

    fn child_at(&self, i: usize) -> (w: &AnyWidget)
        ensures
            *w == self.children_view()[i as int],
    {
        &self.children[i].0
    }
}

impl ContainerTrait for Layout {
    open spec fn children_view(&self) -> Seq<AnyWidget> {
        self.children@
    }

    fn child_count(&self) -> (n: usize)
        ensures
            n == self.children_view().len(),
    {
        self.children.len()
    }

    fn child_at(&self, i: usize) -> (w: &AnyWidget)
        ensures
            *w == self.children_view()[i as int],
    {
        &self.children[i]
    }
}

impl ContainerTrait for MarginBox {
    open spec fn children_view(&self) -> Seq<AnyWidget> {
        match self.child {
            Some(c) => seq![*c],
            None => Seq::empty(),
        }
    }

    fn child_count(&self) -> (n: usize)
        ensures
            n == self.children_view().len(),
    {
        match &self.child {
            Some(_) => 1,
            None => 0,
        }
    }

    fn child_at(&self, i: usize) -> (w: &AnyWidget)
        ensures
            *w == self.children_view()[i as int],
    {
        &**self.child.as_ref().unwrap()
    }
}

impl OneChildContainerTrait for MarginBox {
    fn with_child(&self) -> (c: Option<&AnyWidget>)
        ensures
            match c {
                Some(w) => self.children_view().len() == 1 && *w == self.children_view()[0],
                None => self.children_view().len() == 0,
            },
    {
        match &self.child {
            Some(c) => Some(&**c),
            None => None,
        }
    }
}

impl ContainerTrait for CenteringBox {
    open spec fn children_view(&self) -> Seq<AnyWidget> {
        match self.child {
            Some(c) => seq![*c],
            None => Seq::empty(),
        }
    }

    fn child_count(&self) -> (n: usize)
        ensures
            n == self.children_view().len(),
    {
        match &self.child {
            Some(_) => 1,
            None => 0,
        }
    }

    fn child_at(&self, i: usize) -> (w: &AnyWidget)
        ensures
            *w == self.children_view()[i as int],
    {
        &**self.child.as_ref().unwrap()
    }
}

impl OneChildContainerTrait for CenteringBox {
    fn with_child(&self) -> (c: Option<&AnyWidget>)
        ensures
            match c {
                Some(w) => self.children_view().len() == 1 && *w == self.children_view()[0],
                None => self.children_view().len() == 0,
            },
    {
        match &self.child {
            Some(c) => Some(&**c),
            None => None,
        }
    }
}

impl ContainerTrait for Button {
    open spec fn children_view(&self) -> Seq<AnyWidget> {
        match self.child {
            Some(c) => seq![*c],
            None => Seq::empty(),
        }
    }

    fn child_count(&self) -> (n: usize)
        ensures
            n == self.children_view().len(),
    {
        match &self.child {
            Some(_) => 1,
            None => 0,
        }
    }

    fn child_at(&self, i: usize) -> (w: &AnyWidget)
        ensures
            *w == self.children_view()[i as int],
    {
        &**self.child.as_ref().unwrap()
    }
}

impl OneChildContainerTrait for Button {
    fn with_child(&self) -> (c: Option<&AnyWidget>)
        ensures
            match c {
                Some(w) => self.children_view().len() == 1 && *w == self.children_view()[0],
                None => self.children_view().len() == 0,
            },
    {
        match &self.child {
            Some(c) => Some(&**c),
            None => None,
        }
    }
}

impl ContainerTrait for Frame {
    open spec fn children_view(&self) -> Seq<AnyWidget> {
        match self.child {
            Some(c) => seq![*c],
            None => Seq::empty(),
        }
    }

    fn child_count(&self) -> (n: usize)
        ensures
            n == self.children_view().len(),
    {
        match &self.child {
            Some(_) => 1,
            None => 0,
        }
    }

    fn child_at(&self, i: usize) -> (w: &AnyWidget)
        ensures
            *w == self.children_view()[i as int],
    {
        &**self.child.as_ref().unwrap()
    }
}

impl ButtonTrait for Button {
    open spec fn click_action_view(&self) -> Option<u64> {
        self.click_action
    }

    fn on_clicked(&mut self, action: u64)
        ensures
            final(self).click_action_view() == Some(action),
    {
        self.click_action = Some(action);
    }
}

impl TextTrait for Label {
    open spec fn text_view(&self) -> Seq<char> {
        self.label_str@
    }

    open spec fn text_size_view(&self) -> (u32, u32) {
        self.text_size
    }

    fn set_text(&mut self, new_text: &str, text_size: (u32, u32))
        ensures
            final(self).text_view() == new_text@,
            final(self).text_size_view() == text_size,
    {
        self.label_str = new_text.to_string();
        self.text_size = text_size;
    }

    fn get_text(&self) -> (t: String)
        ensures
            t@ == self.text_view(),
    {
        self.label_str.clone()
    }
}

} // verus!
