//! Messages the host shell delivers to the applet window. The window
//! itself (popup lifecycle, widget tree) belongs to the host GUI shell,
//! outside this core.

use vstd::prelude::*;
use crate::config::Config;

verus! {

/// Events driving the applet: a configuration change, the panel-icon
/// button toggling the popup, and the periodic timer tick that gates
/// sampling and redraw.
#[derive(Clone, Debug)]
pub enum Message {
    Config(Config),
    TogglePopup,
    Tick,
}

} // verus!
