//! Whether audio plays.
//!
//! The sound server lists its streams one by one and then says that the list
//! is complete. Audio inhibits idling exactly if a stream of the list plays,
//! that is, is not paused: whichever application it belongs to, and whether
//! or not it tells.
use crate::event::Event;
use vstd::prelude::*;
use vstd::string::StringExecFns;

verus! {

/// What the sound server tells of one stream.
#[derive(Debug)]
pub struct SinkInput {
    /// Whether the stream is paused.
    pub corked: bool,
    pub application_name: Option<String>,
    pub application_process_binary: Option<String>,
    pub application_process_id: Option<String>,
    pub media_name: Option<String>,
    pub media_title: Option<String>,
}

/// One step of the sound server's answer to a request for its streams.
#[derive(Debug)]
pub enum ListResult {
    /// The request failed.
    Error,
    /// One stream of the list.
    Item(SinkInput),
    /// The list is complete.
    End,
}

/// The application behind a stream, for the record.
#[derive(Debug)]
pub struct AudioInhibitor {
    pub app_name: String,
    pub pid: String,
    pub binary: String,
    pub media_name: Option<String>,
    pub media_title: Option<String>,
}

impl AudioInhibitor {
    /// The application behind a stream, if the stream tells the
    /// application's name, binary and process.
    pub open spec fn spec_new(input: SinkInput) -> Option<AudioInhibitor> {
        if input.application_name is Some && input.application_process_binary is Some
            && input.application_process_id is Some {
            Some(
                AudioInhibitor {
                    app_name: input.application_name->0,
                    pid: input.application_process_id->0,
                    binary: input.application_process_binary->0,
                    media_name: input.media_name,
                    media_title: input.media_title,
                },
            )
        } else {
            None
        }
    }

    /// What a text is shown as where it may be missing.
    pub open spec fn or_unknown(text: Option<String>) -> Seq<char> {
        match text {
            Some(t) => t@,
            None => "unknown"@,
        }
    }

    /// The application in words.
    pub open spec fn spec_to_string(self) -> Seq<char> {
        "application '"@ + self.app_name@ + "' (PID: "@ + self.pid@ + ", Binary: "@
            + self.binary@ + ", Media: "@ + AudioInhibitor::or_unknown(self.media_name)
            + ", Title: "@ + AudioInhibitor::or_unknown(self.media_title) + ")"@
    }

    /// The application in words.
    pub fn to_string(&self) -> (text: String)
        ensures
            text@ == self.spec_to_string(),
    {
        let mut text = "application '".to_owned();
        text.append(self.app_name.as_str());
        text.append("' (PID: ");
        text.append(self.pid.as_str());
        text.append(", Binary: ");
        text.append(self.binary.as_str());
        text.append(", Media: ");
        match &self.media_name {
            Some(name) => text.append(name.as_str()),
            None => text.append("unknown"),
        }
        text.append(", Title: ");
        match &self.media_title {
            Some(title) => text.append(title.as_str()),
            None => text.append("unknown"),
        }
        text.append(")");
        text
    }

    /// The application behind a stream, if the stream tells the
    /// application's name, binary and process.
    pub fn new(input: SinkInput) -> (inhibitor: Option<AudioInhibitor>)
        ensures
            inhibitor == AudioInhibitor::spec_new(input),
    {
        match (
            input.application_name,
            input.application_process_binary,
            input.application_process_id,
        ) {
            (Some(app_name), Some(binary), Some(pid)) => Some(
                AudioInhibitor {
                    app_name,
                    pid,
                    binary,
                    media_name: input.media_name,
                    media_title: input.media_title,
                },
            ),
            _ => None,
        }
    }
}

impl ListResult {
    /// Whether this step of a list is a stream that plays.
    pub open spec fn plays(self) -> bool {
        self matches ListResult::Item(input) && !input.corked
    }
}

/// Whether a playing stream was heard in the list so far, after one more
/// step of it. The end of a list begins the next one, in which nothing was
/// heard yet; a failed request changes nothing.
pub open spec fn heard(playing: bool, result: ListResult) -> bool {
    match result {
        ListResult::Item(input) => playing || !input.corked,
        ListResult::Error => playing,
        ListResult::End => false,
    }
}

/// What a step of a list gives the engine: at the end of a list, whether a
/// playing stream was heard in it; nothing at any other step.
pub open spec fn report(playing: bool, result: ListResult) -> Option<Event> {
    match result {
        ListResult::End => Some(Event::AudioInhibit(playing)),
        _ => None,
    }
}

/// Whether a playing stream was heard in the list so far, after a run of
/// steps.
pub open spec fn heard_all(playing: bool, results: Seq<ListResult>) -> bool
    decreases results.len(),
{
    if results.len() == 0 {
        playing
    } else {
        heard(heard_all(playing, results.drop_last()), results.last())
    }
}

/// At the end of a list, audio inhibits exactly if some stream of the list
/// plays: after steps among which no list ends, a playing stream was heard
/// exactly if one was heard before them or one of them is a stream that
/// plays. After the end of a list, nothing was heard.
pub proof fn lemma_end_reports_the_list(playing: bool, results: Seq<ListResult>)
    requires
        forall|i: int| 0 <= i < results.len() ==> !((#[trigger] results[i]) is End),
    ensures
        heard_all(playing, results) == (playing || exists|i: int|
            0 <= i < results.len() && (#[trigger] results[i]).plays()),
        report(heard_all(playing, results), ListResult::End) == Some(
            Event::AudioInhibit(
                playing || exists|i: int| 0 <= i < results.len() && (#[trigger] results[i]).plays(),
            ),
        ),
        !heard(heard_all(playing, results), ListResult::End),
    decreases results.len(),
{
    if results.len() > 0 {
        let earlier = results.drop_last();
        lemma_end_reports_the_list(playing, earlier);
        if exists|i: int| 0 <= i < earlier.len() && (#[trigger] earlier[i]).plays() {
            let i = choose|i: int| 0 <= i < earlier.len() && (#[trigger] earlier[i]).plays();
            assert(results[i].plays());
        }
        if exists|i: int| 0 <= i < results.len() && (#[trigger] results[i]).plays() {
            let i = choose|i: int| 0 <= i < results.len() && (#[trigger] results[i]).plays();
            if i < earlier.len() {
                assert(earlier[i].plays());
            }
        }
    }
}

/// What was heard of the sound server's list of streams so far.
#[derive(Debug)]
pub struct Playback {
    playing: bool,
}

impl View for Playback {
    type V = bool;

    /// Whether a playing stream was heard since the last end of a list.
    closed spec fn view(&self) -> bool {
        self.playing
    }
}

impl Playback {
    /// Nothing was heard yet.
    pub fn new() -> (playback: Playback)
        ensures
            !playback@,
    {
        Playback { playing: false }
    }

    /// Whether a playing stream was heard since the last end of a list.
    pub fn is_active(&self) -> (active: bool)
        ensures
            active == self@,
    {
        self.playing
    }

    /// Takes one step of the sound server's list. A stream that plays is
    /// taken note of, whether or not it names its application. The end of
    /// the list gives the event for the engine, which says whether any
    /// stream of the list plays, and begins the next list. A failed request
    /// gives nothing and changes nothing.
    pub fn process_sink_inputs(&mut self, result: &ListResult) -> (event: Option<Event>)
        ensures
            final(self)@ == heard(old(self)@, *result),
            event == report(old(self)@, *result),
    {
        match result {
            ListResult::Error => None,
            ListResult::Item(info) => {
                if !info.corked {
                    self.playing = true;
                }
                None
            },
            ListResult::End => {
                let playing = self.playing;
                self.playing = false;
                Some(Event::AudioInhibit(playing))
            },
        }
    }
}

} // verus!
