//! What knotty does about what the child asked for.
//!
//! This is the event table: which requests reach the app, which are refused,
//! which are answered from a constant of ours, and what an answer on its way
//! back to the child has taken out of it. No engine type reaches here, which
//! is what lets each rule be called without a terminal to feed bytes to.

use vstd::prelude::*;

use crate::queue::{pushed, ClipboardTarget, Event, EventQueue};
use crate::text::utf8_str;
use crate::writer::WriteQueue;
use crate::Error;
#[allow(unused_imports)]
use vstd::utf8::*;

verus! {

/// The largest clipboard payload knotty will carry.
///
/// A write past it is refused whole rather than cut short.
pub const CLIPBOARD_TEXT_CAP: usize = 1024 * 1024;

/// What an ENQ is answered with: knotty's name.
pub const ANSWERBACK: &'static str = "knotty";

/// Name and version, the payload of the XTVERSION answer.
pub const VERSION_REPORT: &'static str = "knotty 0.1.0";

/// The one representation knotty takes off a clipboard write: `text/plain`.
pub open spec fn clipboard_mime() -> Seq<u8> {
    seq![0x74u8, 0x65, 0x78, 0x74, 0x2f, 0x70, 0x6c, 0x61, 0x69, 0x6e]
}

/// How the engine answers a title query: `ESC ] l`, then the title.
pub open spec fn title_report_prefix() -> Seq<u8> {
    seq![0x1bu8, 0x5d, 0x6c]
}

/// The same answer carrying no title: `ESC ] l ESC \`.
pub open spec fn empty_title_report() -> Seq<u8> {
    seq![0x1bu8, 0x5d, 0x6c, 0x1b, 0x5c]
}

/// Why a clipboard write was refused.
#[derive(Clone, Copy, Debug, PartialEq, Eq, Structural)]
pub enum ClipboardRefusal {
    /// Refused by policy — the payload is beyond what knotty will carry.
    Denied,
    /// The payload is not what the representation it came under promises.
    InvalidData,
    /// Nothing in the write is a representation knotty can act on.
    Unsupported,
}

/// One of the forms a clipboard write offers its payload in.
///
/// Borrowed for the length of the call that carried it and no longer.
pub struct Representation<'a> {
    /// What the child says the payload is.
    pub mime: &'a [u8],
    /// The payload as it arrived.
    pub data: &'a [u8],
}

/// Whether some representation in `offered` is plain text.
pub open spec fn offers_plain_text(offered: Seq<Representation>) -> bool {
    exists|i: int| 0 <= i < offered.len() && offered[i].mime@ == clipboard_mime()
}

/// The first plain-text representation in `offered`.
pub open spec fn first_plain_text(offered: Seq<Representation>) -> int {
    choose|i: int|
        0 <= i < offered.len() && offered[i].mime@ == clipboard_mime() && forall|j: int|
            0 <= j < i ==> offered[j].mime@ != clipboard_mime()
}

/// What becomes of a clipboard write, by what the first plain-text
/// representation holds: refused, taken and empty, or taken as this text.
pub open spec fn clipboard_outcome(offered: Seq<Representation>) -> Result<Option<Seq<char>>, ClipboardRefusal> {
    if !offers_plain_text(offered) {
        Err(ClipboardRefusal::Unsupported)
    } else {
        let data = offered[first_plain_text(offered)].data@;
        if data.len() == 0 {
            Ok(None)
        } else if data.len() > CLIPBOARD_TEXT_CAP {
            Err(ClipboardRefusal::Denied)
        } else if !valid_utf8(data) {
            Err(ClipboardRefusal::InvalidData)
        } else {
            Ok(Some(decode_utf8(data)))
        }
    }
}

/// Whether `mime` names plain text.
fn is_plain_text(mime: &[u8]) -> (plain: bool)
    ensures
        plain == (mime@ == clipboard_mime()),
{
    let plain = mime.len() == 10 && mime[0] == 0x74 && mime[1] == 0x65 && mime[2] == 0x78
        && mime[3] == 0x74 && mime[4] == 0x2f && mime[5] == 0x70 && mime[6] == 0x6c && mime[7]
        == 0x61 && mime[8] == 0x69 && mime[9] == 0x6e;
    proof {
        if plain {
            assert(mime@ =~= clipboard_mime());
        }
    }
    plain
}

/// What of a clipboard write reaches the app, if anything.
///
/// `Ok(None)` is a representation that is explicitly empty, which does not
/// clear the clipboard. A write carrying no plain text at all is how the
/// engine asks for the clipboard to be cleared, and it is refused. A payload
/// past the cap is refused whole, and one that is not UTF-8 is malformed as
/// `text/plain`.
pub fn clipboard_text<'a>(offered: &[Representation<'a>]) -> (text: Result<Option<&'a str>, ClipboardRefusal>)
    ensures
        match clipboard_outcome(offered@) {
            Ok(Some(chars)) => text matches Ok(Some(s)) && s@ == chars,
            Ok(None) => text matches Ok(None),
            Err(refusal) => text == Err::<Option<&str>, ClipboardRefusal>(refusal),
        },
{
    let mut i: usize = 0;
    while i < offered.len()
        invariant
            0 <= i <= offered@.len(),
            forall|j: int| 0 <= j < i ==> offered@[j].mime@ != clipboard_mime(),
        decreases offered@.len() - i,
    {
        if is_plain_text(offered[i].mime) {
            proof {
                let k = first_plain_text(offered@);
                assert(offers_plain_text(offered@));
                if k != i as int {
                    assert(k < i as int ==> offered@[k].mime@ != clipboard_mime());
                    assert(k > i as int ==> offered@[i as int].mime@ != clipboard_mime());
                }
            }
            let data = offered[i].data;
            if data.len() == 0 {
                return Ok(None);
            }
            if data.len() > CLIPBOARD_TEXT_CAP {
                return Err(ClipboardRefusal::Denied);
            }
            return match utf8_str(data) {
                Some(text) => Ok(Some(text)),
                None => Err(ClipboardRefusal::InvalidData),
            };
        }
        i = i + 1;
    }
    Err(ClipboardRefusal::Unsupported)
}

/// What of an answer goes back to the child.
pub open spec fn sanitized(bytes: Seq<u8>) -> Seq<u8> {
    if bytes.len() >= 3 && bytes.subrange(0, 3) == title_report_prefix() {
        empty_title_report()
    } else {
        bytes
    }
}

/// Empty out an answer that would carry writable state back to the child.
///
/// A title query is answered with the title, and a write to the terminal is
/// keyboard input as far as the shell can tell — so output nobody trusts can
/// set the title to a command, query it back, and have it typed. The answer
/// still goes out, emptied, so that a program waiting on one does not hang.
pub fn sanitized_answer(bytes: &[u8]) -> (answer: Vec<u8>)
    ensures
        answer@ == sanitized(bytes@),
{
    if bytes.len() >= 3 && bytes[0] == 0x1b && bytes[1] == 0x5d && bytes[2] == 0x6c {
        proof {
            assert(bytes@.subrange(0, 3) =~= title_report_prefix());
        }
        let mut empty = Vec::new();
        empty.push(0x1bu8);
        empty.push(0x5du8);
        empty.push(0x6cu8);
        empty.push(0x1bu8);
        empty.push(0x5cu8);
        proof {
            assert(empty@ =~= empty_title_report());
        }
        return empty;
    }
    proof {
        if bytes@.len() >= 3 && bytes@.subrange(0, 3) == title_report_prefix() {
            assert(bytes@[0] == bytes@.subrange(0, 3)[0]);
            assert(bytes@[1] == bytes@.subrange(0, 3)[1]);
            assert(bytes@[2] == bytes@.subrange(0, 3)[2]);
        }
    }
    vstd::slice::slice_to_vec(bytes)
}

/// What the engine hands back while it parses, and the two queues it hands
/// its news to.
///
/// The three queries knotty answers from a constant are values here rather
/// than callbacks: a callback that would return the same bytes every time is
/// a value.
pub struct Listener {
    /// What an ENQ is answered with.
    pub answerback: &'static str,
    /// What an XTVERSION query is answered with.
    pub version: &'static str,
    /// Bytes bound for the child, which every answer the terminal makes is.
    writes: WriteQueue,
    /// What the app has to be told rather than shown.
    events: EventQueue,
}

impl Listener {
    /// Well-formed: both queues are.
    pub closed spec fn wf(&self) -> bool {
        self.writes.wf() && self.events.wf()
    }

    /// What an ENQ is answered with.
    pub closed spec fn enquiry_answer(&self) -> Seq<char> {
        self.answerback@
    }

    /// What an XTVERSION query is answered with.
    pub closed spec fn version_answer(&self) -> Seq<char> {
        self.version@
    }

    /// The queue of bytes bound for the child.
    pub closed spec fn writes(&self) -> WriteQueue {
        self.writes
    }

    /// The queue of events bound for the app.
    pub closed spec fn events(&self) -> EventQueue {
        self.events
    }

    /// Wire the table to the two queues a session hands its news to.
    ///
    /// What is not here matters as much as what is: the pixel size and the
    /// colour scheme get no answer, and a clipboard read is never forwarded.
    pub fn new(writes: WriteQueue, events: EventQueue) -> (listener: Self)
        requires
            writes.wf(),
            events.wf(),
        ensures
            listener.wf(),
            listener.enquiry_answer() == ANSWERBACK@,
            listener.version_answer() == VERSION_REPORT@,
            listener.writes() == writes,
            listener.events() == events,
    {
        Listener { answerback: ANSWERBACK, version: VERSION_REPORT, writes, events }
    }

    /// The terminal wants `bytes` sent to the child: queue them, sanitized.
    pub fn pty_write(&mut self, bytes: &[u8])
        requires
            old(self).wf(),
        ensures
            final(self).wf(),
            final(self).events() == old(self).events(),
            old(self).writes().fits(sanitized(bytes@)) ==> final(self).writes().queued()
                == old(self).writes().queued() + sanitized(bytes@),
            !old(self).writes().fits(sanitized(bytes@)) ==> final(self).writes().queued()
                == old(self).writes().queued(),
            final(self).writes().has_overrun() == (old(self).writes().has_overrun()
                || !old(self).writes().fits(sanitized(bytes@))),
            final(self).enquiry_answer() == old(self).enquiry_answer(),
            final(self).version_answer() == old(self).version_answer(),
    {
        let answer = sanitized_answer(bytes);
        self.writes.push(answer.as_slice());
    }

    /// The child rang the bell.
    pub fn bell(&mut self)
        requires
            old(self).wf(),
        ensures
            final(self).wf(),
            final(self).writes() == old(self).writes(),
            (final(self).events().queued(), final(self).events().dropped()) == pushed(
                old(self).events().queued(),
                old(self).events().dropped(),
                Event::Bell,
            ),
            final(self).events().has_arrival(),
            final(self).enquiry_answer() == old(self).enquiry_answer(),
            final(self).version_answer() == old(self).version_answer(),
    {
        self.events.push(Event::Bell);
    }

    /// The child asked for something to be put on a clipboard.
    ///
    /// A refusal is how this says no. What is taken and not empty goes to the
    /// app as an event.
    pub fn clipboard_write(&mut self, target: ClipboardTarget, offered: &[Representation]) -> (answer: Result<(), ClipboardRefusal>)
        requires
            old(self).wf(),
        ensures
            final(self).wf(),
            final(self).writes() == old(self).writes(),
            final(self).enquiry_answer() == old(self).enquiry_answer(),
            final(self).version_answer() == old(self).version_answer(),
            match clipboard_outcome(offered@) {
                Err(refusal) => answer == Err::<(), ClipboardRefusal>(refusal) && final(self).events()
                    == old(self).events(),
                Ok(None) => answer is Ok && final(self).events() == old(self).events(),
                Ok(Some(chars)) => {
                    &&& answer is Ok
                    &&& final(self).events().has_arrival()
                    &&& exists|text: String|
                        text@ == chars && (final(self).events().queued(), final(self).events().dropped())
                            == pushed(
                            old(self).events().queued(),
                            old(self).events().dropped(),
                            (Event::ClipboardWrite { target, text }),
                        )
                },
            },
    {
        match clipboard_text(offered) {
            Err(refusal) => Err(refusal),
            Ok(None) => Ok(()),
            Ok(Some(text)) => {
                let owned = text.to_owned();
                self.events.push(Event::ClipboardWrite { target, text: owned });
                Ok(())
            },
        }
    }

    /// Take the bytes queued for the child, emptying the queue.
    pub fn take_writes(&mut self) -> (taken: Vec<u8>)
        requires
            old(self).wf(),
        ensures
            final(self).wf(),
            taken@ == old(self).writes().queued(),
            final(self).writes().queued() == Seq::<u8>::empty(),
            final(self).writes().has_overrun() == old(self).writes().has_overrun(),
            final(self).events() == old(self).events(),
            final(self).enquiry_answer() == old(self).enquiry_answer(),
            final(self).version_answer() == old(self).version_answer(),
    {
        self.writes.take()
    }

    /// Queue bytes the app has for the child, refusing them whole when they
    /// do not fit.
    pub fn try_write(&mut self, bytes: &[u8]) -> (fitted: bool)
        requires
            old(self).wf(),
        ensures
            final(self).wf(),
            fitted == old(self).writes().fits(bytes@),
            fitted ==> final(self).writes().queued() == old(self).writes().queued() + bytes@,
            !fitted ==> final(self).writes().queued() == old(self).writes().queued(),
            final(self).writes().has_overrun() == old(self).writes().has_overrun(),
            final(self).events() == old(self).events(),
            final(self).enquiry_answer() == old(self).enquiry_answer(),
            final(self).version_answer() == old(self).version_answer(),
    {
        self.writes.try_push(bytes)
    }

    /// Whether an answer was dropped since this was last asked, clearing it.
    pub fn take_overrun(&mut self) -> (overran: bool)
        requires
            old(self).wf(),
        ensures
            final(self).wf(),
            overran == old(self).writes().has_overrun(),
            !final(self).writes().has_overrun(),
            final(self).writes().queued() == old(self).writes().queued(),
            final(self).events() == old(self).events(),
            final(self).enquiry_answer() == old(self).enquiry_answer(),
            final(self).version_answer() == old(self).version_answer(),
    {
        self.writes.take_overrun()
    }

    /// How many bytes are waiting for the child.
    pub fn waiting(&self) -> (count: usize)
        ensures
            count == self.writes().queued().len(),
    {
        self.writes.waiting()
    }

    /// Hand what is queued for the child to `take_some`, dropping as much of
    /// it as was taken; on a failure, nothing is dropped.
    pub fn drain_writes_with<F>(&mut self, take_some: F) -> (drained: Result<(), Error>)
        where
            F: FnOnce(&[u8]) -> Result<usize, Error>,
        requires
            old(self).wf(),
            forall|lent: &[u8]| lent@ == old(self).writes().queued() ==> #[trigger] call_requires(take_some, (lent,)),
            forall|lent: &[u8], taken: Result<usize, Error>|
                lent@ == old(self).writes().queued() && call_ensures(take_some, (lent,), taken) ==> (taken matches Ok(
                    n,
                ) ==> n <= lent@.len()),
        ensures
            final(self).wf(),
            old(self).writes().queued().len() == 0 ==> drained is Ok && final(self).writes().queued()
                == old(self).writes().queued(),
            old(self).writes().queued().len() > 0 ==> exists|lent: &[u8], taken: Result<usize, Error>| {
                &&& lent@ == old(self).writes().queued()
                &&& call_ensures(take_some, (lent,), taken)
                &&& match taken {
                    Ok(n) => drained is Ok && final(self).writes().queued() == old(self).writes().queued().subrange(
                        n as int,
                        old(self).writes().queued().len() as int,
                    ),
                    Err(e) => drained == Err::<(), Error>(e) && final(self).writes().queued() == old(
                        self,
                    ).writes().queued(),
                }
            },
            final(self).writes().has_overrun() == old(self).writes().has_overrun(),
            final(self).events() == old(self).events(),
    {
        self.writes.drain_with(take_some)
    }

    /// Take the events queued for the app, emptying the queue, along with
    /// how many were dropped since the last take.
    pub fn take_events(&mut self) -> (taken: (Vec<Event>, u64))
        requires
            old(self).wf(),
        ensures
            final(self).wf(),
            taken.0@ == old(self).events().queued(),
            taken.1 == old(self).events().dropped(),
            final(self).events().queued() == Seq::<Event>::empty(),
            final(self).events().dropped() == 0,
            final(self).events().has_arrival() == old(self).events().has_arrival(),
            final(self).writes() == old(self).writes(),
            final(self).enquiry_answer() == old(self).enquiry_answer(),
            final(self).version_answer() == old(self).version_answer(),
    {
        self.events.take()
    }

    /// Queue an event of the session's own, such as the child's end.
    pub fn queue_event(&mut self, event: Event)
        requires
            old(self).wf(),
        ensures
            final(self).wf(),
            (final(self).events().queued(), final(self).events().dropped()) == pushed(
                old(self).events().queued(),
                old(self).events().dropped(),
                event,
            ),
            final(self).events().has_arrival(),
            final(self).writes() == old(self).writes(),
            final(self).enquiry_answer() == old(self).enquiry_answer(),
            final(self).version_answer() == old(self).version_answer(),
    {
        self.events.push(event);
    }

    /// Whether an event arrived since this was last asked, clearing it.
    pub fn take_arrival(&mut self) -> (arrived: bool)
        requires
            old(self).wf(),
        ensures
            final(self).wf(),
            arrived == old(self).events().has_arrival(),
            !final(self).events().has_arrival(),
            final(self).events().queued() == old(self).events().queued(),
            final(self).events().dropped() == old(self).events().dropped(),
            final(self).writes() == old(self).writes(),
            final(self).enquiry_answer() == old(self).enquiry_answer(),
            final(self).version_answer() == old(self).version_answer(),
    {
        self.events.take_arrival()
    }
}

/// What becomes of a clipboard write is decided by its first plain-text
/// representation alone: a write with none is unsupported; an empty payload
/// leaves the clipboard alone; one past the cap is denied whatever it holds;
/// one within the cap that is not UTF-8 is invalid data; and any other
/// arrives as exactly the text it spells.
pub proof fn law_clipboard_write_is_decided_by_its_plain_text(offered: Seq<Representation>)
    ensures
        !offers_plain_text(offered) ==> clipboard_outcome(offered) == Err::<Option<Seq<char>>, ClipboardRefusal>(
            ClipboardRefusal::Unsupported,
        ),
        offers_plain_text(offered) ==> ({
            let data = offered[first_plain_text(offered)].data@;
            &&& data.len() == 0 ==> clipboard_outcome(offered) == Ok::<Option<Seq<char>>, ClipboardRefusal>(None)
            &&& data.len() > CLIPBOARD_TEXT_CAP ==> clipboard_outcome(offered) == Err::<
                Option<Seq<char>>,
                ClipboardRefusal,
            >(ClipboardRefusal::Denied)
            &&& 0 < data.len() <= CLIPBOARD_TEXT_CAP && !valid_utf8(data) ==> clipboard_outcome(offered)
                == Err::<Option<Seq<char>>, ClipboardRefusal>(ClipboardRefusal::InvalidData)
            &&& 0 < data.len() <= CLIPBOARD_TEXT_CAP && valid_utf8(data) ==> clipboard_outcome(offered)
                == Ok::<Option<Seq<char>>, ClipboardRefusal>(Some(decode_utf8(data)))
        }),
{
}

/// An answer goes back to the child as it is, unless it reports the title:
/// a title report goes back carrying no title at all.
pub proof fn law_only_a_title_report_is_emptied(bytes: Seq<u8>)
    ensures
        !(bytes.len() >= 3 && bytes[0] == 0x1bu8 && bytes[1] == 0x5du8 && bytes[2] == 0x6cu8)
            ==> sanitized(bytes) == bytes,
        (bytes.len() >= 3 && bytes[0] == 0x1bu8 && bytes[1] == 0x5du8 && bytes[2] == 0x6cu8)
            ==> sanitized(bytes) == seq![0x1bu8, 0x5du8, 0x6cu8, 0x1bu8, 0x5cu8],
{
    if bytes.len() >= 3 {
        let head = bytes.subrange(0, 3);
        if bytes[0] == 0x1bu8 && bytes[1] == 0x5du8 && bytes[2] == 0x6cu8 {
            assert(head =~= title_report_prefix());
        } else if head == title_report_prefix() {
            assert(head[0] == bytes[0] && head[1] == bytes[1] && head[2] == bytes[2]);
        }
    }
}

} // verus!
