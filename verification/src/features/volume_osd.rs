//! The volume indicator: a small always-open overlay in the corner of the
//! main output that fades in when the volume changes and fades back out.

use vstd::prelude::*;

use crate::anim::{Animation, ANIM_SCALE};
use crate::features::Feature;
use crate::layer::{Anchor, KeyboardInteractivity, Layer, LayerSettings, OutputChoice};
use crate::Effect;

verus! {

/// The volume indicator feature: a fade animation plus the shared "now".
#[derive(Debug)]
pub struct VolumeOSD {
    pub animation: Animation,
    pub now: u64,
}

#[derive(Debug, Clone, Copy, PartialEq, Eq)]
pub enum VolumeOsdMessage {
    VolumeAppear,
    VolumeDissapear,
}

/// The placement the volume indicator asks for: a fixed-size overlay in
/// the bottom-right corner of the main output, transparent to input.
pub open spec fn volume_osd_settings_ok(r: LayerSettings) -> bool {
    &&& r.size == Some((500u32, 300u32))
    &&& r.layer == Layer::Overlay
    &&& r.anchor == (Anchor { top: false, right: true, bottom: true, left: false })
    &&& r.exclusive_zone == Some(-1i32)
    &&& r.margin is None
    &&& r.keyboard_interactivity == KeyboardInteractivity::NotInteractive
    &&& r.output matches OutputChoice::ByName(n) && n@ == "DP-3"@
    &&& r.events_transparent
    &&& r.namespace is None
}

impl VolumeOSD {
    /// Invariant: the fade animation stays on the scale.
    pub open spec fn wf(self) -> bool {
        self.animation.wf()
    }

    /// A fresh indicator sits fully faded out.
    pub fn new(now: u64) -> (r: VolumeOSD)
        ensures
            r.animation == (Animation {
                start_value: 0,
                target: 0,
                start_time: 0,
                duration_ms: 0,
            }),
            r.now == now,
            r.wf(),
    {
        VolumeOSD { animation: Animation::new(0), now }
    }

    /// A volume change fades the indicator in; quiet fades it back out.
    /// The fade is driven at the stored "now"; no follow-up work arises.
    pub fn update(&mut self, message: VolumeOsdMessage) -> (effects: Vec<Effect>)
        requires
            old(self).wf(),
        ensures
            final(self).wf(),
            final(self).now == old(self).now,
            final(self).animation == old(self).animation.driven(
                match message {
                    VolumeOsdMessage::VolumeAppear => ANIM_SCALE,
                    VolumeOsdMessage::VolumeDissapear => 0u32,
                },
                old(self).now,
            ),
            effects@ == Seq::<Effect>::empty(),
    {
        match message {
            VolumeOsdMessage::VolumeAppear => {
                self.animation.drive(ANIM_SCALE, self.now);
            },
            VolumeOsdMessage::VolumeDissapear => {
                self.animation.drive(0, self.now);
            },
        }
        Vec::new()
    }
}

impl Feature for VolumeOSD {
    open spec fn settings_ok(&self, r: LayerSettings) -> bool {
        volume_osd_settings_ok(r)
    }

    open spec fn animating_spec(&self) -> bool {
        self.animation.animating_at(self.now)
    }

    open spec fn with_now(self, now: u64) -> Self {
        VolumeOSD { now, ..self }
    }

    fn layer_settings(&self) -> (r: LayerSettings) {
        LayerSettings {
            size: Some((500, 300)),
            layer: Layer::Overlay,
            anchor: Anchor { top: false, right: true, bottom: true, left: false },
            exclusive_zone: Some(-1i32),
            margin: None,
            keyboard_interactivity: KeyboardInteractivity::NotInteractive,
            output: OutputChoice::ByName("DP-3".to_owned()),
            events_transparent: true,
            namespace: None,
        }
    }

    fn is_animating(&self) -> (r: bool) {
        self.animation.is_animating(self.now)
    }

    fn set_now(&mut self, now: u64) {
        self.now = now;
    }
}

} // verus!
