//! A segmented theme switch for immediate-mode user interfaces.
//!
//! The switch lets a user pick one of a few mutually exclusive options. It is
//! rebuilt from scratch every frame, in five stages:
//!
//! 1. the option table is built ([`widget`]);
//! 2. space is measured and divided among the buttons ([`space_allocation`]);
//! 3. a click on a button is turned into a new value ([`interactivity`]);
//! 4. the track, the indicator and the buttons are drawn ([`painting`]);
//! 5. a radio group and its radio buttons are described to assistive
//!    technology ([`accessibility`]).
//!
//! The toolkit that hosts the switch allocates rectangles, senses the pointer,
//! eases animated values and paints. The library decides everything else: it
//! takes what the toolkit reports as plain values and returns plain values.
//!
//! All lengths and coordinates are whole numbers of layout units.
use vstd::prelude::*;

pub mod accessibility;
pub mod accesskit_node;
pub mod geometry;
pub mod interactivity;
pub mod options;
pub mod painting;
pub mod response;
pub mod search;
pub mod space_allocation;
pub mod style;
pub mod theme;
pub mod widget;
