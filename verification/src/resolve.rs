//! Resolving devices by hostname, under a deadline.
//!
//! A lookup consumes what a discovery yields and answers whether a device of
//! a given hostname, or each of a few, has responded before the deadline.
//! That the deadline passes without a match is no error: the answer is then
//! `None`, or the part that was found.
//!
//! The waiting belongs to the embedding program. It feeds a [`Lookup`] item
//! by item, or hands everything that arrived, with its time of arrival, to
//! [`one`] or [`multiple`].
//!
//! Times are milliseconds; those of arrivals count from the start of the
//! lookup. An item that arrives at the very moment of the deadline is still
//! taken.

use vstd::prelude::*;
use vstd::utf8::encode_utf8;
use crate::codec::encodable;
use crate::discover::{all, Discovery, DiscoveryView};
use crate::addr::Ipv4Addr;
use crate::errors::{Error, ErrorView, TimeoutError};
use crate::mdns::ADDR_ANY;
use crate::response::{texts_view, Response, ResponseView};

verus! {

/// An item that a discovery yielded, and when.
#[derive(Debug, PartialEq, Eq)]
pub struct Arrival {
    /// The time of arrival, counted from the start of the lookup.
    pub at: u64,
    pub item: Result<Response, Error>,
}

/// What an [`Arrival`] holds.
pub ghost struct ArrivalView {
    pub at: u64,
    pub item: Result<ResponseView, ErrorView>,
}

/// The search for the devices of some hostnames: the names asked for, and the
/// responses found so far, one for a hostname.
#[derive(Clone, Debug, PartialEq, Eq)]
pub struct Lookup {
    host_names: Vec<String>,
    found: Vec<Response>,
}

/// What a [`Lookup`] holds.
pub ghost struct LookupView {
    pub host_names: Seq<Seq<char>>,
    pub found: Seq<ResponseView>,
}

/// Where a lookup stands after an item.
#[derive(Debug, PartialEq, Eq)]
pub enum Progress {
    /// Some hostname is still missing.
    Searching,
    /// Every hostname asked for has been found.
    Complete,
    /// The discovery failed; the lookup ends with this error.
    Failed(Error),
}

/// What a sequence of responses holds.
pub open spec fn responses_view(responses: Seq<Response>) -> Seq<ResponseView> {
    responses.map_values(|response: Response| response@)
}

/// What a sequence of arrivals holds.
pub open spec fn feed_view(feed: Seq<Arrival>) -> Seq<ArrivalView> {
    feed.map_values(|arrival: Arrival| arrival@)
}

impl View for Arrival {
    type V = ArrivalView;

    open spec fn view(&self) -> ArrivalView {
        ArrivalView {
            at: self.at,
            item: match self.item {
                Ok(response) => Ok(response@),
                Err(error) => Err(error@),
            },
        }
    }
}

impl View for Lookup {
    type V = LookupView;

    closed spec fn view(&self) -> LookupView {
        LookupView { host_names: texts_view(self.host_names@), found: responses_view(self.found@) }
    }
}

impl LookupView {
    /// A lookup that has found nothing yet.
    pub open spec fn new(host_names: Seq<Seq<char>>) -> LookupView {
        LookupView { host_names, found: Seq::empty() }
    }

    /// Whether `host` is among the hostnames asked for.
    pub open spec fn asks_for(self, host: Seq<char>) -> bool {
        exists|i: int| 0 <= i < self.host_names.len() && #[trigger] self.host_names[i] == host
    }

    /// Whether a response of `host` has been found.
    pub open spec fn has(self, host: Seq<char>) -> bool {
        exists|i: int|
            0 <= i < self.found.len() && (#[trigger] self.found[i]).hostname() == Some(host)
    }

    /// Whether the lookup takes `response`: it is of a hostname that was
    /// asked for and has not been found before.
    pub open spec fn wants(self, response: ResponseView) -> bool {
        match response.hostname() {
            Some(host) => self.asks_for(host) && !self.has(host),
            None => false,
        }
    }

    /// The lookup after `response` came in: with the response added to what
    /// was found, where the lookup takes it.
    pub open spec fn accepted(self, response: ResponseView) -> LookupView {
        if self.wants(response) {
            LookupView { found: self.found.push(response), ..self }
        } else {
            self
        }
    }

    /// Whether every hostname asked for has been found.
    pub open spec fn complete(self) -> bool {
        forall|i: int| 0 <= i < self.host_names.len() ==> self.has(#[trigger] self.host_names[i])
    }

    /// What holds of every lookup: each response found is of a hostname that
    /// was asked for, and no two are of the same.
    pub open spec fn wf(self) -> bool {
        &&& forall|i: int|
            0 <= i < self.found.len() ==> {
                &&& (#[trigger] self.found[i]).hostname() is Some
                &&& self.asks_for(self.found[i].hostname()->Some_0)
            }
        &&& forall|i: int, j: int|
            0 <= i < j < self.found.len() ==> (#[trigger] self.found[i]).hostname() != (
            #[trigger] self.found[j]).hostname()
    }

    /// What the lookup ends with, fed with `feed` under the deadline
    /// `timeout`.
    ///
    /// It ends with what it has found as soon as every hostname is found, or
    /// the feed is at its end, or the next item arrives after the deadline.
    /// It ends with an error as soon as the next item is one. Else it takes
    /// the next item in and goes on.
    pub open spec fn outcome(self, timeout: u64, feed: Seq<ArrivalView>) -> Result<
        Seq<ResponseView>,
        ErrorView,
    >
        decreases feed.len(),
    {
        if self.complete() || feed.len() == 0 || feed[0].at > timeout {
            Ok(self.found)
        } else {
            match feed[0].item {
                Err(error) => Err(error),
                Ok(response) => self.accepted(response).outcome(timeout, feed.drop_first()),
            }
        }
    }
}

/// Whether an arrival ends the wait for a response of `host_name`: it comes
/// after the deadline, or is an error, or is such a response.
pub open spec fn settles(arrival: ArrivalView, host_name: Seq<char>, timeout: u64) -> bool {
    ||| arrival.at > timeout
    ||| arrival.item is Err
    ||| arrival.item matches Ok(response) && response.hostname() == Some(host_name)
}

/// Whether `k` is the place of the first arrival of `feed` that ends the wait.
pub open spec fn is_first_to_settle(
    feed: Seq<ArrivalView>,
    host_name: Seq<char>,
    timeout: u64,
    k: int,
) -> bool {
    &&& 0 <= k < feed.len()
    &&& settles(feed[k], host_name, timeout)
    &&& forall|j: int| 0 <= j < k ==> !settles(#[trigger] feed[j], host_name, timeout)
}

/// What an arrival that ends the wait ends it with: nothing where it comes
/// after the deadline, else its error or its response.
pub open spec fn verdict(arrival: ArrivalView, timeout: u64) -> Result<
    Option<ResponseView>,
    ErrorView,
> {
    if arrival.at > timeout {
        Ok(None)
    } else {
        match arrival.item {
            Err(error) => Err(error),
            Ok(response) => Ok(Some(response)),
        }
    }
}

/// What the wait for a response of `host_name` ends with: the verdict of the
/// first arrival that ends it, and nothing where none does.
pub open spec fn resolved(feed: Seq<ArrivalView>, host_name: Seq<char>, timeout: u64) -> Result<
    Option<ResponseView>,
    ErrorView,
> {
    if exists|k: int| is_first_to_settle(feed, host_name, timeout, k) {
        verdict(feed[choose|k: int| is_first_to_settle(feed, host_name, timeout, k)], timeout)
    } else {
        Ok(None)
    }
}

/// There is at most one first arrival to end the wait.
pub proof fn first_to_settle_is_unique(
    feed: Seq<ArrivalView>,
    host_name: Seq<char>,
    timeout: u64,
    k: int,
)
    requires
        is_first_to_settle(feed, host_name, timeout, k),
    ensures
        resolved(feed, host_name, timeout) == verdict(feed[k], timeout),
{
    let chosen = choose|i: int| is_first_to_settle(feed, host_name, timeout, i);
    if chosen < k {
        assert(!settles(feed[chosen], host_name, timeout));
    } else if k < chosen {
        assert(!settles(feed[k], host_name, timeout));
    }
}

/// Whether the result of a lookup of one device holds what `view` says.
pub open spec fn one_is(
    result: Result<Option<Response>, Error>,
    view: Result<Option<ResponseView>, ErrorView>,
) -> bool {
    match result {
        Ok(None) => view == Ok::<Option<ResponseView>, ErrorView>(None),
        Ok(Some(response)) => view == Ok::<Option<ResponseView>, ErrorView>(Some(response@)),
        Err(error) => view == Err::<Option<ResponseView>, ErrorView>(error@),
    }
}

/// Whether the result of a lookup of several devices holds what `view` says.
pub open spec fn multiple_is(
    result: Result<Vec<Response>, Error>,
    view: Result<Seq<ResponseView>, ErrorView>,
) -> bool {
    match result {
        Ok(found) => view == Ok::<Seq<ResponseView>, ErrorView>(responses_view(found@)),
        Err(error) => view == Err::<Seq<ResponseView>, ErrorView>(error@),
    }
}

/// The query interval of a lookup's discovery: twice the timeout, as far as
/// the clock goes.
pub open spec fn query_interval(timeout: u64) -> u64 {
    if timeout * 2 <= u64::MAX {
        (timeout * 2) as u64
    } else {
        u64::MAX
    }
}

/// The discovery that a lookup runs on: of the service on all interfaces, for
/// as long as the lookup waits, with a query at once and a query interval so
/// long that no second query falls within the wait.
pub fn discovery(service_name: &str, timeout: u64) -> (discovery: Discovery)
    ensures
        discovery@ == DiscoveryView::new(
            service_name@,
            query_interval(timeout),
            seq![Ipv4Addr { bits: ADDR_ANY }],
        ).initial_send(true).timeout(timeout),
{
    // by setting the query interval higher than the timeout we ensure we only make one query
    all(service_name, timeout.saturating_add(timeout)).initial_send(true).timeout(timeout)
}

impl Lookup {
    /// A lookup of the devices of `host_names` that has found nothing yet.
    pub fn new(host_names: Vec<String>) -> (lookup: Lookup)
        ensures
            lookup@ == LookupView::new(texts_view(host_names@)),
            lookup@.wf(),
    {
        let lookup = Lookup { host_names, found: Vec::new() };
        assert(lookup@.found =~= Seq::empty());
        lookup
    }

    /// Whether `host` is among the hostnames asked for.
    fn asks_for(&self, host: &String) -> (asked: bool)
        ensures
            asked == self@.asks_for(host@),
    {
        let mut i: usize = 0;
        while i < self.host_names.len()
            invariant
                i <= self.host_names.len(),
                forall|k: int| 0 <= k < i ==> #[trigger] self@.host_names[k] != host@,
            decreases self.host_names.len() - i,
        {
            assert(self@.host_names[i as int] == self.host_names@[i as int]@);
            if self.host_names[i] == *host {
                return true;
            }
            i += 1;
        }
        false
    }

    /// Whether a response of `host` has been found.
    fn has(&self, host: &String) -> (had: bool)
        ensures
            had == self@.has(host@),
    {
        let mut i: usize = 0;
        while i < self.found.len()
            invariant
                i <= self.found.len(),
                forall|k: int| 0 <= k < i ==> (#[trigger] self@.found[k]).hostname() != Some(host@),
            decreases self.found.len() - i,
        {
            assert(self@.found[i as int] == self.found@[i as int]@);
            match self.found[i].pointer() {
                Some(found_host) => {
                    if *found_host == *host {
                        return true;
                    }
                },
                None => {},
            }
            i += 1;
        }
        false
    }

    /// Whether every hostname asked for has been found.
    pub fn is_complete(&self) -> (complete: bool)
        ensures
            complete == self@.complete(),
    {
        let mut i: usize = 0;
        while i < self.host_names.len()
            invariant
                i <= self.host_names.len(),
                forall|k: int| 0 <= k < i ==> self@.has(#[trigger] self@.host_names[k]),
            decreases self.host_names.len() - i,
        {
            assert(self@.host_names[i as int] == self.host_names@[i as int]@);
            if !self.has(&self.host_names[i]) {
                return false;
            }
            i += 1;
        }
        true
    }

    /// Takes in the next item of the discovery.
    ///
    /// An error ends the lookup and is handed back. A response is added to
    /// what was found where it is of a hostname that was asked for and not
    /// found before; every other response is passed over. What was found
    /// before stays as it is.
    pub fn accept(&mut self, item: Result<Response, Error>) -> (progress: Progress)
        requires
            old(self)@.wf(),
        ensures
            final(self)@.wf(),
            match item {
                Err(error) => {
                    &&& final(self)@ == old(self)@
                    &&& progress matches Progress::Failed(failure)
                    &&& failure@ == error@
                },
                Ok(response) => {
                    &&& final(self)@ == old(self)@.accepted(response@)
                    &&& if final(self)@.complete() {
                        progress is Complete
                    } else {
                        progress is Searching
                    }
                },
            },
    {
        match item {
            Err(error) => Progress::Failed(error),
            Ok(response) => {
                let wanted = match response.pointer() {
                    Some(found_host) => self.asks_for(found_host) && !self.has(found_host),
                    None => false,
                };
                if wanted {
                    let ghost before = self@;
                    self.found.push(response);
                    assert(self@.found =~= before.found.push(response@));
                    assert forall|i: int, j: int| 0 <= i < j < self@.found.len() implies (
                    #[trigger] self@.found[i]).hostname() != (
                    #[trigger] self@.found[j]).hostname() by {
                        if j == before.found.len() {
                            assert(before.found[i].hostname() != response@.hostname());
                        }
                    }
                }
                if self.is_complete() {
                    Progress::Complete
                } else {
                    Progress::Searching
                }
            },
        }
    }

    /// Ends the lookup at its deadline: that the time ran out is no error,
    /// and the lookup ends with what it has found.
    pub fn expire(self, elapsed: TimeoutError) -> (found: Vec<Response>)
        ensures
            responses_view(found@) == self@.found,
    {
        self.found
    }

    /// The number of responses found so far.
    pub fn found_count(&self) -> (count: usize)
        ensures
            count == self@.found.len(),
    {
        self.found.len()
    }

    /// The responses found, in the order in which they came in.
    pub fn found(self) -> (found: Vec<Response>)
        ensures
            responses_view(found@) == self@.found,
    {
        self.found
    }
}

/// Takes the first arrival off a feed.
fn take_first(feed: &mut Vec<Arrival>) -> (arrival: Arrival)
    requires
        old(feed)@.len() > 0,
    ensures
        arrival@ == feed_view(old(feed)@)[0],
        feed_view(final(feed)@) == feed_view(old(feed)@).drop_first(),
{
    let ghost before = feed@;
    let arrival = feed.remove(0);
    proof {
        before.remove_ensures(0);
        assert(feed_view(feed@) =~= feed_view(before).drop_first());
    }
    arrival
}

/// Resolves a single device by hostname, out of what a discovery yielded.
///
/// The arrivals are taken in their order. The wait ends at the first that
/// comes after `timeout`, or is an error, or is a response whose hostname is
/// `host_name`: after the deadline with `Ok(None)`, on an error with that
/// error, on such a response with it. Where none ends the wait, the result is
/// `Ok(None)`.
pub fn one(host_name: &str, timeout: u64, feed: Vec<Arrival>) -> (result: Result<
    Option<Response>,
    Error,
>)
    ensures
        one_is(result, resolved(feed_view(feed@), host_name@, timeout)),
{
    let wanted = host_name.to_owned();
    let ghost whole = feed_view(feed@);
    let mut rest = feed;
    let ghost mut taken: int = 0;
    assert(whole.skip(0) =~= whole);
    while rest.len() > 0
        invariant
            wanted@ == host_name@,
            whole == feed_view(feed@),
            0 <= taken <= whole.len(),
            feed_view(rest@) == whole.skip(taken),
            forall|j: int| 0 <= j < taken ==> !settles(#[trigger] whole[j], host_name@, timeout),
        decreases rest@.len(),
    {
        let arrival = take_first(&mut rest);
        assert(whole.skip(taken).drop_first() =~= whole.skip(taken + 1));
        assert(arrival@ == whole[taken]);
        if arrival.at > timeout {
            proof {
                first_to_settle_is_unique(whole, host_name@, timeout, taken);
            }
            return Ok(None);
        }
        match arrival.item {
            Err(error) => {
                proof {
                    first_to_settle_is_unique(whole, host_name@, timeout, taken);
                }
                return Err(error);
            },
            Ok(response) => {
                let matched = match response.pointer() {
                    Some(found_host) => *found_host == wanted,
                    None => false,
                };
                if matched {
                    proof {
                        first_to_settle_is_unique(whole, host_name@, timeout, taken);
                    }
                    return Ok(Some(response));
                }
            },
        }
        proof {
            taken = taken + 1;
        }
    }
    assert(taken == whole.len());
    Ok(None)
}

/// Resolves multiple devices by hostname, out of what a discovery yielded.
///
/// The arrivals are taken in their order by a [`Lookup`] of `host_names`,
/// until every hostname is found or an arrival comes after `timeout`. The
/// result holds one response for each hostname that was found, the first
/// that came in for it, and none for any other hostname: at most as many as
/// were asked for, and that it holds fewer is no error. An error among the
/// arrivals that were taken is handed back.
pub fn multiple(host_names: Vec<String>, timeout: u64, feed: Vec<Arrival>) -> (result: Result<
    Vec<Response>,
    Error,
>)
    ensures
        multiple_is(
            result,
            LookupView::new(texts_view(host_names@)).outcome(timeout, feed_view(feed@)),
        ),
        result matches Ok(found) ==> {
            &&& found@.len() <= host_names@.len()
            &&& (LookupView {
                host_names: texts_view(host_names@),
                found: responses_view(found@),
            }).wf()
        },
{
    let ghost names = texts_view(host_names@);
    let ghost whole = feed_view(feed@);
    let mut lookup = Lookup::new(host_names);
    let mut rest = feed;
    let mut complete = lookup.is_complete();
    while !complete && rest.len() > 0
        invariant
            names == texts_view(host_names@),
            whole == feed_view(feed@),
            lookup@.wf(),
            lookup@.host_names == names,
            complete == lookup@.complete(),
            LookupView::new(names).outcome(timeout, whole) == lookup@.outcome(
                timeout,
                feed_view(rest@),
            ),
        decreases rest@.len(),
    {
        let arrival = take_first(&mut rest);
        if arrival.at > timeout {
            proof {
                found_is_no_more_than_asked(lookup@);
            }
            return Ok(lookup.found());
        }
        match lookup.accept(arrival.item) {
            Progress::Failed(error) => {
                return Err(error);
            },
            Progress::Complete => {
                complete = true;
            },
            Progress::Searching => {},
        }
    }
    proof {
        found_is_no_more_than_asked(lookup@);
    }
    Ok(lookup.found())
}

/// A lookup never holds more responses than hostnames were asked for.
pub proof fn found_is_no_more_than_asked(lookup: LookupView)
    requires
        lookup.wf(),
    ensures
        lookup.found.len() <= lookup.host_names.len(),
{
    let hosts = lookup.found.map_values(|response: ResponseView| response.hostname()->Some_0);
    assert(hosts.no_duplicates()) by {
        assert forall|i: int, j: int|
            0 <= i < hosts.len() && 0 <= j < hosts.len() && i != j implies hosts[i] != hosts[j] by {
            if i < j {
                assert(lookup.found[i].hostname() != lookup.found[j].hostname());
            } else {
                assert(lookup.found[j].hostname() != lookup.found[i].hostname());
            }
        }
    }
    hosts.unique_seq_to_set();
    lookup.host_names.lemma_cardinality_of_set();
    assert(hosts.to_set().subset_of(lookup.host_names.to_set())) by {
        assert forall|host: Seq<char>|
            hosts.to_set().contains(host) implies lookup.host_names.to_set().contains(host) by {
            let i = choose|i: int| 0 <= i < hosts.len() && hosts[i] == host;
            assert(lookup.asks_for(lookup.found[i].hostname()->Some_0));
        }
    }
    vstd::seq_lib::seq_to_set_is_finite(lookup.host_names);
    vstd::set_lib::lemma_len_subset(hosts.to_set(), lookup.host_names.to_set());
}

/// Within the wait of a lookup, its discovery asks for a round of queries at
/// the first tick and for no second: the query interval is longer than the
/// wait.
pub proof fn one_round_within_the_wait(
    service_name: Seq<char>,
    timeout: u64,
    start: u64,
    first: u64,
    second: u64,
)
    requires
        0 < timeout < u64::MAX,
        start <= first <= second <= start + timeout,
    ensures
        ({
            let session = DiscoveryView::new(
                service_name,
                query_interval(timeout),
                seq![Ipv4Addr { bits: ADDR_ANY }],
            ).initial_send(true).timeout(timeout).listen(start);
            &&& query_interval(timeout) > timeout
            &&& session.due(first) == encodable(encode_utf8(service_name))
            &&& !session.ticked(first).due(second)
        }),
{
}

/// A lookup does not look past its deadline: what is in the feed after the
/// first arrival that comes too late makes no difference to what it ends
/// with.
pub proof fn nothing_counts_after_the_deadline(
    lookup: LookupView,
    timeout: u64,
    feed: Seq<ArrivalView>,
    k: int,
)
    requires
        0 <= k < feed.len(),
        feed[k].at > timeout,
    ensures
        lookup.outcome(timeout, feed) == lookup.outcome(timeout, feed.take(k)),
    decreases k,
{
    if k == 0 {
        assert(feed.take(0).len() == 0);
    } else if !lookup.complete() && feed[0].at <= timeout {
        assert(feed.take(k)[0] == feed[0]);
        assert(feed.take(k).drop_first() =~= feed.drop_first().take(k - 1));
        match feed[0].item {
            Err(_) => {},
            Ok(response) => {
                nothing_counts_after_the_deadline(
                    lookup.accepted(response),
                    timeout,
                    feed.drop_first(),
                    k - 1,
                );
            },
        }
    } else {
        assert(feed.take(k)[0] == feed[0]);
    }
}

} // verus!
