//! Decision layer of a driver for the dual-lane AD9361 radio transceiver.
//!
//! The library holds what the driver decides, proved against its contracts:
//! the closed sets of mode tokens and their parsing, the range checks that
//! every integer setting passes before it may be written, the order in which
//! the chip's devices and channels are resolved, and the sample-buffer
//! lifecycle of each direction, which refuses every streaming call while no
//! buffer exists. The hardware access itself is made by the caller, with the
//! handles and values that this library hands out.

mod calib_mode;
mod ensm_mode;
mod error;
mod gain_control_mode;
mod layout;
mod rx_port_select;
mod settings;
mod text;
mod transceiver;
mod tx_port_select;

pub use calib_mode::{lemma_calib_mode_token, CalibMode};
pub use ensm_mode::{lemma_ensm_mode_token, ENSMMode};
pub use error::{DevicePart, Error};
pub use gain_control_mode::{lemma_gain_control_mode_token, GainControlMode};
pub use layout::{
    construction_step, failure_of, lane_lookup, lane_step, lemma_devices_first, lo_step, ChannelId, LanePart, Lookup,
    CONSTRUCTION_STEPS, LANES,
};
pub use rx_port_select::{lemma_rx_port_token, RxPortSelect};
pub use settings::{
    lemma_setting_ranges, IntSetting, IntWrite, CALIB_MODE_ATTR, DCXO_COARSE_END, DCXO_COARSE_MIN,
    DCXO_FINE_END, DCXO_FINE_MIN, ENSM_MODE_ATTR, GAIN_CONTROL_MODE_ATTR, LO_FREQUENCY_MAX, LO_FREQUENCY_MIN,
    RF_BANDWIDTH_END, RF_BANDWIDTH_MIN, RF_PORT_SELECT_ATTR, SAMPLING_FREQUENCY_END,
    SAMPLING_FREQUENCY_MIN,
};
pub use text::same_text;
pub use transceiver::{lemma_destroy_refuses_streaming, BufferState, Rx, Signal, Transceiver, Tx};
pub use tx_port_select::{lemma_tx_port_token, TxPortSelect};
