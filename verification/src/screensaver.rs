//! The registry of screen saver inhibitions that applications hold.
//!
//! An application asks for an inhibition and gets a cookie; it gives the
//! inhibition up by handing the cookie back, or by leaving the bus. While the
//! registry holds any inhibition, idling is inhibited. The registry tells its
//! caller when that begins and ends, as an event for the engine.
use crate::event::Event;
use crate::text::str_eq;
use vstd::prelude::*;

verus! {

/// One inhibition.
#[derive(Debug)]
pub struct Inhibitor {
    pub cookie: u32,
    pub application_name: String,
    pub reason_for_inhibit: String,
    /// The bus name of the application that holds it.
    pub client: String,
}

/// Whether an inhibition is held by somebody other than `name`.
pub open spec fn held_by_other(name: Seq<char>) -> spec_fn(Inhibitor) -> bool {
    |inhibitor: Inhibitor| inhibitor.client@ != name
}

/// What is asked of the registry.
pub enum Request {
    Inhibit { application_name: String, reason_for_inhibit: String, sender: Option<String> },
    UnInhibit { cookie: u32 },
    OwnerDisconnected { name: Seq<char> },
}

/// The registry, as contracts see it.
pub struct Registry {
    /// The inhibitions, oldest first.
    pub inhibitors: Seq<Inhibitor>,
    /// The cookie issued last, 0 before the first.
    pub last_cookie: nat,
}

impl Registry {
    /// The registry before any request.
    pub open spec fn initial() -> Registry {
        Registry { inhibitors: Seq::empty(), last_cookie: 0 }
    }

    /// The inhibitions carry cookies that were issued, each its own, in the
    /// order of issue.
    pub open spec fn sound(self) -> bool {
        &&& self.last_cookie <= u32::MAX
        &&& forall|i: int|
            0 <= i < self.inhibitors.len() ==> 0 < (#[trigger] self.inhibitors[i]).cookie
                <= self.last_cookie
        &&& forall|i: int, j: int|
            0 <= i < j < self.inhibitors.len() ==> (#[trigger] self.inhibitors[i]).cookie < (
            #[trigger] self.inhibitors[j]).cookie
    }

    /// Whether any inhibition is held.
    pub open spec fn inhibited(self) -> bool {
        self.inhibitors.len() > 0
    }

    /// The event for the engine when the registry goes from `self` to
    /// `after`: one when inhibition begins or ends, none otherwise.
    pub open spec fn edge(self, after: Registry) -> Option<Event> {
        if self.inhibited() == after.inhibited() {
            None
        } else {
            Some(Event::ScreenSaverInhibit(after.inhibited()))
        }
    }

    /// The cookie that the next inhibition gets.
    pub open spec fn next_cookie(self) -> nat {
        self.last_cookie + 1
    }

    /// The registry after a request for an inhibition. The cookie is used up
    /// even when the request names no sender, in which case nothing is
    /// registered.
    pub open spec fn inhibit(
        self,
        application_name: String,
        reason_for_inhibit: String,
        sender: Option<String>,
    ) -> Registry {
        Registry {
            inhibitors: match sender {
                Some(client) => self.inhibitors.push(
                    Inhibitor {
                        cookie: self.next_cookie() as u32,
                        application_name,
                        reason_for_inhibit,
                        client,
                    },
                ),
                None => self.inhibitors,
            },
            last_cookie: self.next_cookie(),
        }
    }

    /// Whether the inhibition at `i` is the oldest one with this cookie.
    pub open spec fn is_first_with(self, cookie: u32, i: int) -> bool {
        &&& 0 <= i < self.inhibitors.len()
        &&& self.inhibitors[i].cookie == cookie
        &&& forall|k: int| 0 <= k < i ==> (#[trigger] self.inhibitors[k]).cookie != cookie
    }

    /// Whether an inhibition with this cookie is held.
    pub open spec fn holds(self, cookie: u32) -> bool {
        exists|i: int| self.is_first_with(cookie, i)
    }

    /// The registry after the cookie was handed back: without the oldest
    /// inhibition with this cookie, and as before if there is none.
    pub open spec fn un_inhibit(self, cookie: u32) -> Registry {
        if self.holds(cookie) {
            Registry {
                inhibitors: self.inhibitors.remove(choose|i: int| self.is_first_with(cookie, i)),
                ..self
            }
        } else {
            self
        }
    }

    /// The registry after `name` left the bus: without the inhibitions that
    /// it held.
    pub open spec fn owner_disconnected(self, name: Seq<char>) -> Registry {
        Registry { inhibitors: self.inhibitors.filter(held_by_other(name)), ..self }
    }

    /// The registry after a request.
    pub open spec fn serve(self, request: Request) -> Registry {
        match request {
            Request::Inhibit { application_name, reason_for_inhibit, sender } => self.inhibit(
                application_name,
                reason_for_inhibit,
                sender,
            ),
            Request::UnInhibit { cookie } => self.un_inhibit(cookie),
            Request::OwnerDisconnected { name } => self.owner_disconnected(name),
        }
    }

    /// The registry after a run of requests.
    pub open spec fn serve_all(self, requests: Seq<Request>) -> Registry
        decreases requests.len(),
    {
        if requests.len() == 0 {
            self
        } else {
            self.serve_all(requests.drop_last()).serve(requests.last())
        }
    }
}

/// The registry of the inhibitions that applications hold.
#[derive(Debug)]
pub struct ScreenSaver {
    inhibitors: Vec<Inhibitor>,
    last_cookie: u32,
}

impl View for ScreenSaver {
    type V = Registry;

    closed spec fn view(&self) -> Registry {
        Registry { inhibitors: self.inhibitors@, last_cookie: self.last_cookie as nat }
    }
}

impl ScreenSaver {
    /// Whether the registry is as its own operations leave it.
    pub open spec fn wf(&self) -> bool {
        self@.sound()
    }

    /// An empty registry, whose first cookie will be 1.
    pub fn new() -> (registry: ScreenSaver)
        ensures
            registry@ == Registry::initial(),
            registry.wf(),
    {
        ScreenSaver { inhibitors: Vec::new(), last_cookie: 0 }
    }

    /// The inhibitions, oldest first.
    pub fn inhibitors(&self) -> (inhibitors: &Vec<Inhibitor>)
        ensures
            inhibitors@ == self@.inhibitors,
    {
        &self.inhibitors
    }

    /// The cookie issued last, 0 before the first.
    pub fn last_cookie(&self) -> (cookie: u32)
        ensures
            cookie == self@.last_cookie,
    {
        self.last_cookie
    }

    /// Whether any inhibition is held.
    pub fn is_inhibited(&self) -> (inhibited: bool)
        ensures
            inhibited == self@.inhibited(),
    {
        self.inhibitors.len() > 0
    }

    /// Whether another cookie can be issued: they are 32 bits wide and none
    /// is issued twice.
    pub fn can_inhibit(&self) -> (can: bool)
        ensures
            can == (self@.last_cookie < u32::MAX),
    {
        self.last_cookie < u32::MAX
    }

    /// Registers an inhibition for `sender` and returns its cookie: the
    /// number after the cookie issued last. Without a sender the cookie is
    /// used up and nothing is registered. Returns also the event for the
    /// engine if this is the first inhibition held.
    pub fn inhibit(
        &mut self,
        application_name: String,
        reason_for_inhibit: String,
        sender: Option<String>,
    ) -> (issued: (u32, Option<Event>))
        requires
            old(self).wf(),
            old(self)@.last_cookie < u32::MAX,
        ensures
            final(self)@ == old(self)@.inhibit(application_name, reason_for_inhibit, sender),
            issued.0 == old(self)@.next_cookie(),
            issued.1 == old(self)@.edge(final(self)@),
            final(self).wf(),
    {
        let cookie: u32 = self.last_cookie + 1;
        self.last_cookie = cookie;
        match sender {
            Some(client) => {
                let first = self.inhibitors.len() == 0;
                self.inhibitors.push(
                    Inhibitor { cookie, application_name, reason_for_inhibit, client },
                );
                if first {
                    (cookie, Some(Event::ScreenSaverInhibit(true)))
                } else {
                    (cookie, None)
                }
            },
            None => (cookie, None),
        }
    }

    /// Drops the inhibition with this cookie, if there is one, and returns
    /// the event for the engine if it was the last one held. A cookie that
    /// is not held is no error.
    pub fn un_inhibit(&mut self, cookie: u32) -> (event: Option<Event>)
        requires
            old(self).wf(),
        ensures
            final(self)@ == old(self)@.un_inhibit(cookie),
            event == old(self)@.edge(final(self)@),
            final(self).wf(),
            forall|i: int|
                0 <= i < final(self)@.inhibitors.len() ==> (
                #[trigger] final(self)@.inhibitors[i]).cookie != cookie,
    {
        let mut idx: usize = 0;
        while idx < self.inhibitors.len()
            invariant
                idx <= self.inhibitors@.len(),
                *self == *old(self),
                self@.sound(),
                forall|k: int| 0 <= k < idx ==> (#[trigger] self.inhibitors@[k]).cookie != cookie,
            decreases self.inhibitors@.len() - idx,
        {
            if self.inhibitors[idx].cookie == cookie {
                assert(old(self)@.is_first_with(cookie, idx as int));
                self.inhibitors.remove(idx);
                if self.inhibitors.len() == 0 {
                    return Some(Event::ScreenSaverInhibit(false));
                }
                return None;
            }
            idx = idx + 1;
        }
        None
    }

    /// Drops the inhibitions that `name` held when it left the bus, and
    /// returns the event for the engine if they were all that was held.
    pub fn owner_disconnected(&mut self, name: &str) -> (event: Option<Event>)
        requires
            old(self).wf(),
        ensures
            final(self)@ == old(self)@.owner_disconnected(name@),
            event == old(self)@.edge(final(self)@),
            final(self).wf(),
    {
        let mut entries: Vec<Inhibitor> = Vec::new();
        core::mem::swap(&mut entries, &mut self.inhibitors);
        let ghost before = entries@;
        let ghost keep = held_by_other(name@);
        let inhibited = entries.len() > 0;
        for inhibitor in it: entries
            invariant
                it.seq() == before,
                keep == held_by_other(name@),
                self.last_cookie == old(self).last_cookie,
                self.inhibitors@ == before.take(it.index() as int).filter(keep),
        {
            proof {
                let k = it.index() as int;
                assert(before.take(k + 1) =~= before.take(k).push(before[k]));
                before.take(k).lemma_filter_push(before[k], keep);
            }
            if !str_eq(inhibitor.client.as_str(), name) {
                self.inhibitors.push(inhibitor);
            }
        }
        proof {
            assert(before.take(before.len() as int) =~= before);
            lemma_disconnect_keeps_sound(old(self)@, name@);
        }
        if inhibited && self.inhibitors.len() == 0 {
            Some(Event::ScreenSaverInhibit(false))
        } else {
            None
        }
    }
}

/// What is left after an application has gone is still in the order of
/// issue.
pub proof fn lemma_disconnect_keeps_sound(registry: Registry, name: Seq<char>)
    requires
        registry.sound(),
    ensures
        registry.owner_disconnected(name).sound(),
    decreases registry.inhibitors.len(),
{
    let keep = held_by_other(name);
    reveal(Seq::filter);
    if registry.inhibitors.len() > 0 {
        let shorter = Registry { inhibitors: registry.inhibitors.drop_last(), ..registry };
        lemma_disconnect_keeps_sound(shorter, name);
        let kept = shorter.owner_disconnected(name).inhibitors;
        let last = registry.inhibitors.last();
        assert forall|i: int| 0 <= i < kept.len() implies (#[trigger] kept[i]).cookie
            < last.cookie by {
            assert(kept.contains(kept[i]));
            shorter.inhibitors.lemma_filter_contains_rev(keep, kept[i]);
            let k = choose|k: int|
                0 <= k < shorter.inhibitors.len() && shorter.inhibitors[k] == kept[i];
            assert(registry.inhibitors[k] == kept[i]);
        }
    }
}

/// Every request leaves the registry sound, as long as cookies are left for
/// the inhibitions asked for.
pub proof fn lemma_serve_keeps_sound(registry: Registry, request: Request)
    requires
        registry.sound(),
        request is Inhibit ==> registry.last_cookie < u32::MAX,
    ensures
        registry.serve(request).sound(),
{
    if let Request::OwnerDisconnected { name } = request {
        lemma_disconnect_keeps_sound(registry, name);
    }
}

/// No run of requests takes the count of issued cookies back.
pub proof fn lemma_cookies_never_go_back(registry: Registry, requests: Seq<Request>)
    ensures
        registry.serve_all(requests).last_cookie >= registry.last_cookie,
    decreases requests.len(),
{
    if requests.len() > 0 {
        lemma_cookies_never_go_back(registry, requests.drop_last());
    }
}

/// Cookies grow strictly and none is issued twice: whatever is asked of the
/// registry between two requests for an inhibition, the second request gets
/// a larger cookie than the first. The first cookie of all is 1.
pub proof fn lemma_cookies_strictly_increase(
    registry: Registry,
    application_name: String,
    reason_for_inhibit: String,
    sender: Option<String>,
    requests: Seq<Request>,
)
    ensures
        registry.inhibit(application_name, reason_for_inhibit, sender).serve_all(
            requests,
        ).next_cookie() > registry.next_cookie(),
        Registry::initial().next_cookie() == 1,
{
    lemma_cookies_never_go_back(
        registry.inhibit(application_name, reason_for_inhibit, sender),
        requests,
    );
}

/// In a sound registry no inhibition carries the cookie that comes next, so
/// a new cookie is the cookie of no inhibition that is held.
pub proof fn lemma_next_cookie_is_fresh(registry: Registry)
    requires
        registry.sound(),
    ensures
        forall|i: int|
            0 <= i < registry.inhibitors.len() ==> (#[trigger] registry.inhibitors[i]).cookie
                < registry.next_cookie(),
{
}

/// Once a cookie was handed back, no inhibition with this cookie is held,
/// and every other inhibition is held as before.
pub proof fn lemma_un_inhibit_drops_the_cookie(registry: Registry, cookie: u32)
    requires
        registry.sound(),
    ensures
        !registry.un_inhibit(cookie).holds(cookie),
        forall|i: int|
            0 <= i < registry.inhibitors.len() && (#[trigger] registry.inhibitors[i]).cookie
                != cookie ==> registry.un_inhibit(cookie).inhibitors.contains(
                registry.inhibitors[i],
            ),
{
    let after = registry.un_inhibit(cookie);
    if registry.holds(cookie) {
        let at = choose|i: int| registry.is_first_with(cookie, i);
        assert forall|i: int|
            0 <= i < registry.inhibitors.len() && (#[trigger] registry.inhibitors[i]).cookie
                != cookie implies after.inhibitors.contains(registry.inhibitors[i]) by {
            if i < at {
                assert(after.inhibitors[i] == registry.inhibitors[i]);
            } else {
                assert(after.inhibitors[i - 1] == registry.inhibitors[i]);
            }
        }
    }
}

/// Once an application has left the bus, none of its inhibitions is held,
/// and every inhibition of another application is.
pub proof fn lemma_owner_disconnected_drops_its_inhibitions(registry: Registry, name: Seq<char>)
    ensures
        forall|i: int|
            0 <= i < registry.owner_disconnected(name).inhibitors.len() ==> (
            #[trigger] registry.owner_disconnected(name).inhibitors[i]).client@ != name,
        forall|i: int|
            0 <= i < registry.inhibitors.len() && (#[trigger] registry.inhibitors[i]).client@
                != name ==> registry.owner_disconnected(name).inhibitors.contains(
                registry.inhibitors[i],
            ),
{
}

} // verus!
