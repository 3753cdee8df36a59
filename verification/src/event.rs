//! The two-variant notification type and the translation rule that turns a
//! raw platform notification into it.

use vstd::prelude::*;
use vstd::string::StringExecFns;

verus! {

/// The fixed directory under which the watched device nodes appear.
pub open spec fn device_dir() -> Seq<char> {
    "/dev/"@
}

/// The short-name prefix that marks a device node as watched.
pub open spec fn device_prefix() -> Seq<char> {
    "uhid"@
}

/// Whether a short device name belongs to a watched device: an exact
/// string-prefix match against [`device_prefix`].
pub open spec fn spec_name_matches(name: Seq<char>) -> bool {
    device_prefix().is_prefix_of(name)
}

/// The canonical device-node path for a short name: the fixed directory
/// joined with the name.
pub open spec fn spec_device_path(name: Seq<char>) -> Seq<char> {
    device_dir() + name
}

/// A notification delivered to the consumer: a watched device became
/// available at a path, or stopped being available at it.
#[derive(Debug, PartialEq, Eq)]
pub enum Event {
    Added(String),
    Removed(String),
}

/// The mathematical value of an [`Event`]: the variant together with the
/// path it carries.
pub enum EventV {
    Added(Seq<char>),
    Removed(Seq<char>),
}

impl View for Event {
    type V = EventV;

    open spec fn view(&self) -> EventV {
        match self {
            Event::Added(p) => EventV::Added(p@),
            Event::Removed(p) => EventV::Removed(p@),
        }
    }
}

impl DeepView for Event {
    type V = EventV;

    open spec fn deep_view(&self) -> EventV {
        self.view()
    }
}

/// A raw platform notification, reduced to what translation reads: the kind
/// of change, and the short device name for the two kinds that carry one.
#[derive(Debug, PartialEq, Eq)]
pub enum RawEvent {
    Attach(String),
    Detach(String),
    Other,
}

/// The mathematical value of a [`RawEvent`].
pub enum RawEventV {
    Attach(Seq<char>),
    Detach(Seq<char>),
    Other,
}

impl View for RawEvent {
    type V = RawEventV;

    open spec fn view(&self) -> RawEventV {
        match self {
            RawEvent::Attach(dev) => RawEventV::Attach(dev@),
            RawEvent::Detach(dev) => RawEventV::Detach(dev@),
            RawEvent::Other => RawEventV::Other,
        }
    }
}

impl DeepView for RawEvent {
    type V = RawEventV;

    open spec fn deep_view(&self) -> RawEventV {
        self.view()
    }
}

/// The translation rule: an attach of a matching name becomes `Added` of the
/// joined path, a detach becomes `Removed` of it, and everything else is
/// discarded.
pub open spec fn spec_translate(raw: RawEventV) -> Option<EventV> {
    match raw {
        RawEventV::Attach(dev) => if spec_name_matches(dev) {
            Some(EventV::Added(spec_device_path(dev)))
        } else {
            None
        },
        RawEventV::Detach(dev) => if spec_name_matches(dev) {
            Some(EventV::Removed(spec_device_path(dev)))
        } else {
            None
        },
        RawEventV::Other => None,
    }
}

/// Decide whether a short device name is watched.
pub fn name_matches(name: &str) -> (b: bool)
    ensures
        b == spec_name_matches(name@),
{
    proof {
        reveal_strlit("uhid");
    }
    let n: usize = name.unicode_len();
    if n < 4 {
        return false;
    }
    let b = name.get_char(0) == 'u' && name.get_char(1) == 'h' && name.get_char(2) == 'i'
        && name.get_char(3) == 'd';
    proof {
        if b {
            assert(device_prefix() =~= name@.subrange(0, 4));
        } else {
            if device_prefix().is_prefix_of(name@) {
                assert(name@.subrange(0, 4)[0] == name@[0]);
                assert(name@.subrange(0, 4)[1] == name@[1]);
                assert(name@.subrange(0, 4)[2] == name@[2]);
                assert(name@.subrange(0, 4)[3] == name@[3]);
            }
        }
    }
    b
}

/// Join the fixed device directory with a short name.
pub fn device_path(name: &str) -> (p: String)
    ensures
        p@ == spec_device_path(name@),
{
    let mut p = "/dev/".to_owned();
    p.append(name);
    p
}

impl Event {
    /// Translate one raw platform notification. Total and pure: a matching
    /// attach or detach yields the corresponding event, anything else is
    /// silently discarded.
    pub fn from_devd(raw: &RawEvent) -> (r: Option<Event>)
        ensures
            r.deep_view() == spec_translate(raw@),
    {
        match raw {
            RawEvent::Attach(dev) => if name_matches(dev.as_str()) {
                Some(Event::Added(device_path(dev.as_str())))
            } else {
                None
            },
            RawEvent::Detach(dev) => if name_matches(dev.as_str()) {
                Some(Event::Removed(device_path(dev.as_str())))
            } else {
                None
            },
            RawEvent::Other => None,
        }
    }
}

} // verus!
