//! The interactive vertical-slider widget bound to one curve point: its
//! drag state machine, key handling and screen-geometry arithmetic.
//! Rendering and real callbacks live with the host UI; the widget answers
//! every input with the callback it wants fired, if any.
use vstd::prelude::*;
use crate::curve::MAX_FAN_SPEED;
use crate::curve::MAX_TEMP;
use crate::curve::MIN_TEMP;

verus! {

/// The widget is drawn four cells wide.
pub const WIDGET_WIDTH: usize = 4;

/// Slider height used until the owner configures another one.
pub const DEFAULT_HEIGHT: usize = 10;

/// The inputs the widget understands. Pointer events carry the absolute
/// cell position and the widget's own offset on screen.
#[derive(Clone, Copy, PartialEq, Eq, Structural, Debug)]
pub enum WidgetEvent {
    UpKey,
    DownKey,
    EnterKey,
    MousePress { pos_x: usize, pos_y: usize, off_x: usize, off_y: usize },
    MouseHold { pos_x: usize, pos_y: usize, off_x: usize, off_y: usize },
    MouseRelease,
}

/// The widget's answer to an input: ignored, or consumed together with the
/// callback the owner should fire, carrying the point's (temperature, speed).
#[derive(Clone, Copy, PartialEq, Eq, Structural, Debug)]
pub enum WidgetResponse {
    Ignored,
    Changed(i32, u32),
    Entered(i32, u32),
}

/// Whether an absolute position lies inside the widget's rectangle, whose
/// top-left corner is the offset and whose size is the required size.
pub open spec fn spec_fits(pos_x: int, pos_y: int, off_x: int, off_y: int, height: int) -> bool {
    off_x <= pos_x < off_x + WIDGET_WIDTH && off_y <= pos_y < off_y + height + 1
}

/// The drag mapping: the top of the gauge is full speed, the vertical offset
/// scaled by the height is subtracted, and the result is clamped into
/// [0, MAX_FAN_SPEED] so it can never go negative.
pub open spec fn drag_speed(offset: int, height: int) -> u32 {
    if offset * height >= MAX_FAN_SPEED {
        0u32
    } else {
        (MAX_FAN_SPEED - offset * height) as u32
    }
}

/// The press snap: speed jumps to the pointer's vertical offset inside the
/// widget, clamped to the top speed.
pub open spec fn press_speed(rel_y: int) -> u32 {
    if rel_y >= MAX_FAN_SPEED {
        MAX_FAN_SPEED
    } else {
        rel_y as u32
    }
}

/// The row of the slider label when the widget is drawn: the speed is scaled
/// down the gauge and the row clamped into [0, height - 1].
pub open spec fn spec_slider_row(height: int, speed: int) -> int {
    let scaled = (speed + 9) / height;
    let row = if scaled > height {
        0
    } else {
        height - scaled
    };
    if row > height - 1 {
        height - 1
    } else {
        row
    }
}

/// Computes the drag mapping in exec code, free of overflow.
pub fn drag_speed_for_offset(rel_y: usize, height: usize) -> (r: u32)
    ensures
        r == drag_speed(rel_y as int, height as int),
{
    if rel_y == 0 || height == 0 {
        proof {
            assert(rel_y as int * height as int == 0) by (nonlinear_arith)
                requires
                    rel_y == 0 || height == 0,
            ;
        }
        MAX_FAN_SPEED
    } else if rel_y > 100 || height > 100 {
        proof {
            assert(rel_y as int * height as int >= 101) by (nonlinear_arith)
                requires
                    rel_y as int >= 1,
                    height as int >= 1,
                    rel_y as int >= 101 || height as int >= 101,
            ;
        }
        0
    } else {
        proof {
            assert(rel_y as int * height as int <= 10000) by (nonlinear_arith)
                requires
                    rel_y as int <= 100,
                    height as int <= 100,
                    rel_y as int >= 0,
                    height as int >= 0,
            ;
        }
        let prod: usize = rel_y * height;
        if prod >= 100 {
            0
        } else {
            #[verifier::truncate] ((100 - prod) as u32)
        }
    }
}

/// One interactive vertical slider bound to one curve point. The `dragging`
/// flag is the whole interaction state: true between a press inside the
/// widget's bounds and the next release, wherever that release lands.
#[derive(Clone, Copy, PartialEq, Eq, Structural, Debug)]
pub struct FanCurveUnitView {
    pub height: usize,
    pub fan_speed: u32,
    pub temp: i32,
    pub min_temp: i32,
    pub max_temp: i32,
    pub dragging: bool,
}

/// The interaction state machine: the widget state after one input event.
/// Up and down step the speed within its bounds while idle, enter changes
/// nothing, a press inside the bounds starts a drag and snaps the speed to
/// the pointer, every hold of a drag recommits the drag mapping, and a
/// release anywhere ends the drag without a value change.
pub open spec fn widget_after_event(w: FanCurveUnitView, event: WidgetEvent) -> FanCurveUnitView {
    match event {
        WidgetEvent::UpKey => if w.fan_speed < MAX_FAN_SPEED {
            FanCurveUnitView { fan_speed: (w.fan_speed + 1) as u32, ..w }
        } else {
            w
        },
        WidgetEvent::DownKey => if w.fan_speed > 0 {
            FanCurveUnitView { fan_speed: (w.fan_speed - 1) as u32, ..w }
        } else {
            w
        },
        WidgetEvent::EnterKey => w,
        WidgetEvent::MousePress { pos_x, pos_y, off_x, off_y } => if spec_fits(
            pos_x as int,
            pos_y as int,
            off_x as int,
            off_y as int,
            w.height as int,
        ) {
            FanCurveUnitView { dragging: true, fan_speed: press_speed(pos_y - off_y), ..w }
        } else {
            w
        },
        WidgetEvent::MouseHold { pos_x, pos_y, off_x, off_y } => if w.dragging {
            let rel = if pos_y >= off_y {
                pos_y - off_y
            } else {
                0
            };
            FanCurveUnitView { fan_speed: drag_speed(rel, w.height as int), ..w }
        } else {
            w
        },
        WidgetEvent::MouseRelease => FanCurveUnitView { dragging: false, ..w },
    }
}

/// The widget's answer to one input event: which callback the owner should
/// fire, or that the event was ignored. An ignored event is exactly one
/// that left the state unchanged — except for a release, which ends a drag
/// yet fires nothing.
pub open spec fn widget_response_for(w: FanCurveUnitView, event: WidgetEvent) -> WidgetResponse {
    match event {
        WidgetEvent::UpKey => if w.fan_speed < MAX_FAN_SPEED {
            WidgetResponse::Changed(w.temp, (w.fan_speed + 1) as u32)
        } else {
            WidgetResponse::Ignored
        },
        WidgetEvent::DownKey => if w.fan_speed > 0 {
            WidgetResponse::Changed(w.temp, (w.fan_speed - 1) as u32)
        } else {
            WidgetResponse::Ignored
        },
        WidgetEvent::EnterKey => WidgetResponse::Entered(w.temp, w.fan_speed),
        WidgetEvent::MousePress { pos_x, pos_y, off_x, off_y } => if spec_fits(
            pos_x as int,
            pos_y as int,
            off_x as int,
            off_y as int,
            w.height as int,
        ) {
            WidgetResponse::Changed(w.temp, press_speed(pos_y - off_y))
        } else {
            WidgetResponse::Ignored
        },
        WidgetEvent::MouseHold { pos_x, pos_y, off_x, off_y } => if w.dragging {
            let rel = if pos_y >= off_y {
                pos_y - off_y
            } else {
                0
            };
            WidgetResponse::Changed(w.temp, drag_speed(rel, w.height as int))
        } else {
            WidgetResponse::Ignored
        },
        WidgetEvent::MouseRelease => WidgetResponse::Ignored,
    }
}

/// The drag mapping always lands inside [0, MAX_FAN_SPEED]: whatever the
/// offset and height, the committed speed is clamped and never negative.
pub proof fn lemma_drag_speed_clamped(offset: int, height: int)
    requires
        offset >= 0,
        height >= 0,
    ensures
        drag_speed(offset, height) <= MAX_FAN_SPEED,
{
    assert(offset * height >= 0) by (nonlinear_arith)
        requires
            offset >= 0,
            height >= 0,
    ;
}

/// The up key at the top speed and the down key at speed zero are ignored:
/// the widget state is unchanged and no callback fires.
pub proof fn lemma_keys_ignored_at_bounds(w: FanCurveUnitView)
    ensures
        w.fan_speed >= MAX_FAN_SPEED ==> widget_after_event(w, WidgetEvent::UpKey) == w
            && widget_response_for(w, WidgetEvent::UpKey) == WidgetResponse::Ignored,
        w.fan_speed == 0 ==> widget_after_event(w, WidgetEvent::DownKey) == w
            && widget_response_for(w, WidgetEvent::DownKey) == WidgetResponse::Ignored,
{
}

impl FanCurveUnitView {
    /// Creates a slider for one point with the default height and the
    /// default temperature bounds, not dragging.
    pub fn new(temp: i32, fan_speed: u32) -> (s: FanCurveUnitView)
        ensures
            s == (FanCurveUnitView {
                height: DEFAULT_HEIGHT,
                fan_speed,
                temp,
                min_temp: MIN_TEMP,
                max_temp: MAX_TEMP,
                dragging: false,
            }),
    {
        FanCurveUnitView {
            height: DEFAULT_HEIGHT,
            fan_speed,
            temp,
            min_temp: MIN_TEMP,
            max_temp: MAX_TEMP,
            dragging: false,
        }
    }

    /// Sets the height of the slider. No callback.
    pub fn set_height(&mut self, height: usize)
        ensures
            *final(self) == (FanCurveUnitView { height, ..*old(self) }),
    {
        self.height = height;
    }

    /// Chainable method to set the height.
    #[must_use]
    pub fn with_height(self, height: usize) -> (s: FanCurveUnitView)
        ensures
            s == (FanCurveUnitView { height, ..self }),
    {
        let mut s = self;
        s.set_height(height);
        s
    }

    /// Gets the current height.
    pub fn get_height(&self) -> (h: usize)
        ensures
            h == self.height,
    {
        self.height
    }

    /// Chainable method to set the point's min and max temperature values.
    #[must_use]
    pub fn with_temp_min_max(self, min: i32, max: i32) -> (s: FanCurveUnitView)
        ensures
            s == (FanCurveUnitView { min_temp: min, max_temp: max, ..self }),
    {
        let mut s = self;
        s.min_temp = min;
        s.max_temp = max;
        s
    }

    /// Gets the point's current max temperature value.
    pub fn get_max_temp(&self) -> (t: i32)
        ensures
            t == self.max_temp,
    {
        self.max_temp
    }

    /// Gets the point's current min temperature value.
    pub fn get_min_temp(&self) -> (t: i32)
        ensures
            t == self.min_temp,
    {
        self.min_temp
    }

    /// Chainable method to set the point's temperature and fan speed values.
    #[must_use]
    pub fn with_temp_speed(self, temp: i32, speed: u32) -> (s: FanCurveUnitView)
        ensures
            s == (FanCurveUnitView { temp, fan_speed: speed, ..self }),
    {
        let mut s = self;
        s.temp = temp;
        s.fan_speed = speed;
        s
    }

    /// Gets the point's current temperature value.
    pub fn get_temp(&self) -> (t: i32)
        ensures
            t == self.temp,
    {
        self.temp
    }

    /// Gets the point's current fan speed value.
    pub fn get_speed(&self) -> (s: u32)
        ensures
            s == self.fan_speed,
    {
        self.fan_speed
    }

    /// Up key: one step faster, clamped at the top speed; at the top the
    /// event is ignored and nothing changes, so no callback fires.
    pub fn slide_plus(&mut self) -> (r: WidgetResponse)
        ensures
            if old(self).fan_speed < MAX_FAN_SPEED {
                &&& *final(self) == (FanCurveUnitView {
                    fan_speed: (old(self).fan_speed + 1) as u32,
                    ..*old(self)
                })
                &&& r == WidgetResponse::Changed(old(self).temp, (old(self).fan_speed + 1) as u32)
            } else {
                *final(self) == *old(self) && r == WidgetResponse::Ignored
            },
    {
        if self.fan_speed < MAX_FAN_SPEED {
            self.fan_speed = self.fan_speed + 1;
            WidgetResponse::Changed(self.temp, self.fan_speed)
        } else {
            WidgetResponse::Ignored
        }
    }

    /// Down key: one step slower, floored at zero; at zero the event is
    /// ignored and nothing changes, so no callback fires.
    pub fn slide_minus(&mut self) -> (r: WidgetResponse)
        ensures
            if old(self).fan_speed > 0 {
                &&& *final(self) == (FanCurveUnitView {
                    fan_speed: (old(self).fan_speed - 1) as u32,
                    ..*old(self)
                })
                &&& r == WidgetResponse::Changed(old(self).temp, (old(self).fan_speed - 1) as u32)
            } else {
                *final(self) == *old(self) && r == WidgetResponse::Ignored
            },
    {
        if self.fan_speed > 0 {
            self.fan_speed = self.fan_speed - 1;
            WidgetResponse::Changed(self.temp, self.fan_speed)
        } else {
            WidgetResponse::Ignored
        }
    }

    /// The screen estate the widget asks for: a fixed width and one row under
    /// the slider for the temperature label.
    pub fn req_size(&self) -> (r: (usize, usize))
        requires
            self.height < usize::MAX,
        ensures
            r.0 == WIDGET_WIDTH,
            r.1 == self.height + 1,
    {
        (WIDGET_WIDTH, self.height + 1)
    }

    /// The widget always accepts focus when queried.
    pub fn accepts_focus(&self) -> (r: bool)
        ensures
            r,
    {
        true
    }

    /// The row the speed label is drawn on.
    pub fn slider_row(&self) -> (r: usize)
        requires
            self.height >= 1,
            self.fan_speed <= MAX_FAN_SPEED,
        ensures
            r == spec_slider_row(self.height as int, self.fan_speed as int),
    {
        let scaled = (self.fan_speed as usize + 9) / self.height;
        let row = if scaled > self.height {
            0
        } else {
            self.height - scaled
        };
        if row > self.height - 1 {
            self.height - 1
        } else {
            row
        }
    }

    /// Routes one input event through the interaction state machine:
    /// up/down step the speed in the idle state, enter reports the current
    /// pair, a press inside the bounds starts a drag and snaps the speed to
    /// the pointer, every hold of a drag recommits the drag mapping, and a
    /// release anywhere ends the drag without a value change.
    pub fn on_event(&mut self, event: WidgetEvent) -> (r: WidgetResponse)
        requires
            old(self).height < usize::MAX,
        ensures
            *final(self) == widget_after_event(*old(self), event),
            r == widget_response_for(*old(self), event),
    {
        match event {
            WidgetEvent::UpKey => self.slide_plus(),
            WidgetEvent::DownKey => self.slide_minus(),
            WidgetEvent::EnterKey => WidgetResponse::Entered(self.temp, self.fan_speed),
            WidgetEvent::MousePress { pos_x, pos_y, off_x, off_y } => {
                let fits = pos_x >= off_x && pos_x - off_x < WIDGET_WIDTH && pos_y >= off_y
                    && pos_y - off_y < self.height + 1;
                if fits {
                    let rel_y = pos_y - off_y;
                    self.dragging = true;
                    self.fan_speed = if rel_y >= 100 {
                        MAX_FAN_SPEED
                    } else {
                        #[verifier::truncate] (rel_y as u32)
                    };
                    WidgetResponse::Changed(self.temp, self.fan_speed)
                } else {
                    WidgetResponse::Ignored
                }
            },
            WidgetEvent::MouseHold { pos_x, pos_y, off_x, off_y } => {
                if self.dragging {
                    let rel_y = if pos_y >= off_y {
                        pos_y - off_y
                    } else {
                        0
                    };
                    self.fan_speed = drag_speed_for_offset(rel_y, self.height);
                    WidgetResponse::Changed(self.temp, self.fan_speed)
                } else {
                    WidgetResponse::Ignored
                }
            },
            WidgetEvent::MouseRelease => {
                self.dragging = false;
                WidgetResponse::Ignored
            },
        }
    }
}

} // verus!
