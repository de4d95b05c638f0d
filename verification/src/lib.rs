//! Peripheral bring-up for the CAN and USB-OTG blocks of the STM32 line:
//! clock-enable and reset sequencing against a model of the clock-control
//! registers, chip-family dispatch, and the static capability data that the
//! external CAN and USB driver libraries ask a peripheral to declare.
#![allow(non_camel_case_types)]

pub mod can;
pub mod family;
pub mod regs;
pub mod usb_otg;
