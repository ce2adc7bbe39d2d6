//! The concrete widget kinds and the polymorphic widget value.

pub mod anywidget;
pub mod button;
pub mod centeringbox;
pub mod drawingarea;
pub mod empty;
pub mod frame;
pub mod hbox;
pub mod label;
pub mod layout;
pub mod marginbox;
pub mod scrollbar;
pub mod vbox;

pub use self::anywidget::AnyWidget;
pub use self::button::Button;
pub use self::centeringbox::CenteringBox;
pub use self::drawingarea::DrawingArea;
pub use self::empty::Empty;
pub use self::frame::Frame;
pub use self::hbox::HBox;
pub use self::label::Label;
pub use self::layout::Layout;
pub use self::marginbox::MarginBox;
pub use self::scrollbar::HScrollBar;
pub use self::vbox::VBox;
