//! The kinds of window.

use crate::query::time::{Duration, TimeCharacteristic, TimeCharacteristicModel};
use vstd::prelude::*;

verus! {

/// How a stream is cut into windows.
#[derive(Debug, PartialEq)]
pub enum WindowDescriptor {
    /// Windows of a fixed length that follow each other without overlap.
    TumblingWindow { duration: Duration, time_character: TimeCharacteristic },
}

/// What a [`WindowDescriptor`] stands for.
pub ghost enum WindowDescriptorModel {
    TumblingWindow { duration: Duration, time_character: TimeCharacteristicModel },
}

impl View for WindowDescriptor {
    type V = WindowDescriptorModel;

    open spec fn view(&self) -> WindowDescriptorModel {
        match *self {
            WindowDescriptor::TumblingWindow {
                duration,
                time_character,
            } => WindowDescriptorModel::TumblingWindow {
                duration,
                time_character: time_character@,
            },
        }
    }
}

impl Clone for WindowDescriptor {
    fn clone(&self) -> (r: Self)
        ensures
            r@ == self@,
    {
        match self {
            WindowDescriptor::TumblingWindow {
                duration,
                time_character,
            } => WindowDescriptor::TumblingWindow {
                duration: *duration,
                time_character: time_character.clone(),
            },
        }
    }
}

} // verus!
