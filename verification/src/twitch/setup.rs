//! Before anything else: what an earlier run left behind, and the channels of
//! the streamers.

use vstd::prelude::*;

use crate::maps::lemma_push_contains;
use crate::text::{opt_text, same};
use crate::twitch::types::{texts, Broadcasters, Channel, ChannelModel};

verus! {

/// Why a streamer was not found.
pub enum StreamerErrorModel {
    Request(Seq<char>),
    NotFound,
}

/// Why a streamer was not found.
#[derive(Debug)]
pub enum StreamerError {
    /// The request failed.
    Request(String),
    /// There is no such streamer.
    NotFound,
}

impl View for StreamerError {
    type V = StreamerErrorModel;

    open spec fn view(&self) -> StreamerErrorModel {
        match *self {
            StreamerError::Request(e) => StreamerErrorModel::Request(e@),
            StreamerError::NotFound => StreamerErrorModel::NotFound,
        }
    }
}

impl StreamerErrorModel {
    /// The error in words.
    pub open spec fn text(self) -> Seq<char> {
        match self {
            StreamerErrorModel::Request(e) => e,
            StreamerErrorModel::NotFound => "failed to get twitch streamer"@,
        }
    }
}

impl StreamerError {
    /// The error in words.
    pub fn text(&self) -> (r: String)
        ensures
            r@ == self@.text(),
    {
        match self {
            StreamerError::Request(e) => e.clone(),
            StreamerError::NotFound => "failed to get twitch streamer".to_owned(),
        }
    }
}

/// What the search for one streamer gave.
pub open spec fn found_channel(result: Result<Option<Channel>, String>) -> Result<
    ChannelModel,
    StreamerErrorModel,
> {
    match result {
        Ok(Some(channel)) => Ok(channel@),
        Ok(None) => Err(StreamerErrorModel::NotFound),
        Err(e) => Err(StreamerErrorModel::Request(e@)),
    }
}

/// The channels by their identifier, the later over the earlier; or the first
/// error.
pub open spec fn mapped(results: Seq<Result<Option<Channel>, String>>) -> Result<
    Map<Seq<char>, ChannelModel>,
    StreamerErrorModel,
>
    decreases results.len(),
{
    if results.len() == 0 {
        Ok(Map::empty())
    } else {
        match mapped(results.drop_last()) {
            Err(e) => Err(e),
            Ok(map) => match found_channel(results.last()) {
                Err(e) => Err(e),
                Ok(channel) => Ok(map.insert(channel.id, channel)),
            },
        }
    }
}

proof fn lemma_mapped_prefix(results: Seq<Result<Option<Channel>, String>>, n: int)
    requires
        0 <= n <= results.len(),
        mapped(results.take(n)) is Err,
    ensures
        mapped(results) == mapped(results.take(n)),
    decreases results.len() - n,
{
    if n < results.len() {
        assert(results.take(n + 1).drop_last() =~= results.take(n));
        lemma_mapped_prefix(results, n + 1);
    } else {
        assert(results.take(n) =~= results);
    }
}

/// The channels of the streamers by their identifier: events are subscribed to
/// by channel. One streamer who is not found is one too many.
pub fn streamer_map(results: &Vec<Result<Option<Channel>, String>>) -> (r: Result<
    Broadcasters,
    StreamerError,
>)
    ensures
        match r {
            Ok(map) => mapped(results@) == Ok::<Map<Seq<char>, ChannelModel>, StreamerErrorModel>(
                map@,
            ),
            Err(e) => mapped(results@) == Err::<Map<Seq<char>, ChannelModel>, StreamerErrorModel>(
                e@,
            ),
        },
{
    let mut map = Broadcasters::new();
    let mut i: usize = 0;
    while i < results.len()
        invariant
            i <= results.len(),
            mapped(results@.take(i as int)) == Ok::<
                Map<Seq<char>, ChannelModel>,
                StreamerErrorModel,
            >(map@),
        decreases results.len() - i,
    {
        proof {
            assert(results@.take(i + 1).drop_last() =~= results@.take(i as int));
            assert(results@.take(i + 1).last() == results@[i as int]);
        }
        match &results[i] {
            Ok(Some(channel)) => {
                map.insert(channel.clone());
            },
            Ok(None) => {
                proof {
                    lemma_mapped_prefix(results@, i + 1);
                }
                return Err(StreamerError::NotFound);
            },
            Err(e) => {
                proof {
                    lemma_mapped_prefix(results@, i + 1);
                }
                return Err(StreamerError::Request(e.clone()));
            },
        }
        i += 1;
    }
    assert(results@.take(i as int) =~= results@);
    Ok(map)
}

/// Whether `r` holds a conduit that was noted down and those that are listed, each
/// once.
pub open spec fn lists_leftovers(
    r: Seq<Seq<char>>,
    noted: Option<Seq<char>>,
    listed: Seq<Seq<char>>,
) -> bool {
    &&& r.no_duplicates()
    &&& forall|id: Seq<char>| #[trigger]
        r.contains(id) <==> noted == Some(id) || listed.contains(id)
}

/// The conduits that an earlier run left behind: those that Twitch lists, and
/// the one that was noted down, each once.
pub fn leftover_conduits(noted: Option<String>, listed: &Vec<String>) -> (r: Vec<String>)
    ensures
        lists_leftovers(texts(r@), opt_text(noted), texts(listed@)),
        texts(r@).no_duplicates(),
        forall|id: Seq<char>| #[trigger]
            texts(r@).contains(id) <==> opt_text(noted) == Some(id) || texts(listed@).contains(id),
{
    let mut out: Vec<String> = Vec::new();
    if let Some(id) = &noted {
        out.push(id.clone());
        assert(texts(out@) =~= seq![id@]);
    }
    let ghost all = texts(listed@);
    let mut i: usize = 0;
    proof {
        assert forall|id: Seq<char>| #[trigger]
            texts(out@).contains(id) <==> opt_text(noted) == Some(id) || all.take(0).contains(
                id,
            ) by {
            if let Some(first) = noted {
                assert(texts(out@)[0] == first@);
            }
        }
    }
    while i < listed.len()
        invariant
            i <= listed.len(),
            all == texts(listed@),
            texts(out@).no_duplicates(),
            forall|id: Seq<char>| #[trigger]
                texts(out@).contains(id) <==> opt_text(noted) == Some(id) || all.take(
                    i as int,
                ).contains(id),
        decreases listed.len() - i,
    {
        let ghost before = texts(out@);
        let ghost id0 = listed@[i as int]@;
        if !holds_text(&out, listed[i].as_str()) {
            out.push(listed[i].clone());
            assert(texts(out@) =~= before.push(id0));
        }
        proof {
            let now = all.take(i + 1);
            let was = all.take(i as int);
            assert(now =~= was.push(id0));
            assert forall|id: Seq<char>| #[trigger]
                texts(out@).contains(id) <==> opt_text(noted) == Some(id) || now.contains(id) by {
                lemma_push_contains(before, id0, id);
                lemma_push_contains(was, id0, id);
            }
        }
        i += 1;
    }
    assert(all.take(i as int) =~= all);
    out
}

fn holds_text(list: &Vec<String>, text: &str) -> (r: bool)
    ensures
        r == texts(list@).contains(text@),
{
    let mut i: usize = 0;
    while i < list.len()
        invariant
            i <= list.len(),
            forall|j: int| 0 <= j < i ==> texts(list@)[j] != text@,
        decreases list.len() - i,
    {
        if same(list[i].as_str(), text) {
            assert(texts(list@)[i as int] == text@);
            return true;
        }
        i += 1;
    }
    false
}

// ---------------------------------------------------------------------------
// Laws
// ---------------------------------------------------------------------------


/// Every conduit that Twitch lists is left over, and so is one that was noted down;
/// nothing else is, and none stands there twice.
pub proof fn law_no_conduit_is_left(
    r: Seq<Seq<char>>,
    noted: Option<Seq<char>>,
    listed: Seq<Seq<char>>,
    i: int,
    j: int,
)
    requires
        lists_leftovers(r, noted, listed),
    ensures
        0 <= i < listed.len() ==> r.contains(listed[i]),
        noted matches Some(id) ==> r.contains(id),
        0 <= i < r.len() ==> noted == Some(r[i]) || listed.contains(r[i]),
        0 <= i < j < r.len() ==> r[i] != r[j],
{
    if 0 <= i < listed.len() {
        assert(listed.contains(listed[i]));
    }
    if 0 <= i < r.len() {
        assert(r.contains(r[i]));
    }
}

/// The streamers are mapped if every one of them was found, and not otherwise.
pub proof fn law_all_streamers_are_needed(results: Seq<Result<Option<Channel>, String>>)
    ensures
        mapped(results) is Ok <==> forall|i: int|
            0 <= i < results.len() ==> (#[trigger] results[i]) matches Ok(Some(_)),
    decreases results.len(),
{
    if results.len() > 0 {
        let init = results.drop_last();
        law_all_streamers_are_needed(init);
        assert(results[results.len() - 1] == results.last());
        if mapped(init) is Err {
            let i = choose|i: int|
                0 <= i < init.len() && !((#[trigger] init[i]) matches Ok(Some(_)));
            assert(results[i] == init[i]);
        } else {
            assert forall|i: int| 0 <= i < init.len() implies (#[trigger] results[i]) matches Ok(
                Some(_),
            ) by {
                assert(results[i] == init[i]);
            }
        }
    }
}

/// The first search that gave nothing is what went wrong: it failed, and for this
/// reason, or there is no such streamer.
pub proof fn law_the_first_failure_is_told(results: Seq<Result<Option<Channel>, String>>, n: int)
    requires
        0 <= n < results.len(),
        forall|i: int| 0 <= i < n ==> (#[trigger] results[i]) matches Ok(Some(_)),
    ensures
        results[n] matches Err(e) ==> mapped(results) == Err::<
            Map<Seq<char>, ChannelModel>,
            StreamerErrorModel,
        >(StreamerErrorModel::Request(e@)),
        results[n] matches Ok(None) ==> mapped(results) == Err::<
            Map<Seq<char>, ChannelModel>,
            StreamerErrorModel,
        >(StreamerErrorModel::NotFound),
{
    let before = results.take(n);
    assert forall|i: int| 0 <= i < before.len() implies (#[trigger] before[i]) matches Ok(
        Some(_),
    ) by {
        assert(before[i] == results[i]);
    }
    law_all_streamers_are_needed(before);
    assert(results.take(n + 1).drop_last() =~= before);
    assert(results.take(n + 1).last() == results[n]);
    if !(results[n] matches Ok(Some(_))) {
        lemma_mapped_prefix(results, n + 1);
    }
}

/// Each channel that was found stands under its identifier, the last one where there
/// are several; and nothing else is in the map.
pub proof fn law_channels_stand_under_their_identifier(
    results: Seq<Result<Option<Channel>, String>>,
    map: Map<Seq<char>, ChannelModel>,
    n: int,
    id: Seq<char>,
)
    requires
        mapped(results) == Ok::<Map<Seq<char>, ChannelModel>, StreamerErrorModel>(map),
    ensures
        0 <= n < results.len() ==> (results[n] matches Ok(Some(channel)) && map.contains_key(
            channel.id@,
        ) && ((forall|j: int|
            n < j < results.len() ==> ((#[trigger] results[j])->Ok_0->0).id@ != channel.id@)
            ==> map[channel.id@] == channel@)),
        map.contains_key(id) ==> map[id].id == id && exists|j: int|
            0 <= j < results.len() && ((#[trigger] results[j])->Ok_0->0)@ == map[id],
    decreases results.len(),
{
    if results.len() > 0 {
        law_all_streamers_are_needed(results);
        let init = results.drop_last();
        let before = mapped(init)->Ok_0;
        assert(mapped(init) is Ok);
        let last = results.last()->Ok_0->0;
        assert(results[results.len() - 1] == results.last());
        law_channels_stand_under_their_identifier(init, before, n, id);
        if 0 <= n < init.len() {
            assert(init[n] == results[n]);
            let channel = results[n]->Ok_0->0;
            if forall|j: int|
                n < j < results.len() ==> ((#[trigger] results[j])->Ok_0->0).id@ != channel.id@ {
                assert forall|j: int| n < j < init.len() implies ((#[trigger] init[j])->Ok_0->0).id@
                    != channel.id@ by {
                    assert(results[j] == init[j]);
                }
                assert((results[results.len() - 1]->Ok_0->0).id@ != channel.id@);
            }
        }
        if map.contains_key(id) && id != last.id@ {
            let j = choose|j: int|
                0 <= j < init.len() && ((#[trigger] init[j])->Ok_0->0)@ == before[id];
            assert(results[j] == init[j]);
        }
    }
}

/// What went wrong is said in the words of what failed.
pub proof fn law_failures_are_said(e: Seq<char>)
    ensures
        StreamerErrorModel::Request(e).text() == e,
        StreamerErrorModel::NotFound.text() == "failed to get twitch streamer"@,
{
}

/// Why a streamer was not found is what was said.
pub proof fn law_nothing_about_a_failure_is_left_out(e: StreamerError)
    ensures
        e matches StreamerError::Request(why) ==> e@ == StreamerErrorModel::Request(why@),
        e is NotFound <==> e@ is NotFound,
{
}

} // verus!
