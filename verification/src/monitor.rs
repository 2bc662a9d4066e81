//! URL monitor: one polling task per window group detects navigation by
//! diffing the sampled address against the last observation. The decision
//! logic of one tick, and of a whole run, lives here; the host side only
//! samples the surface and performs the published action.

use vstd::prelude::*;
use vstd::string::StringExecFns;

verus! {

/// The reply to a current-address query: the sampled address when the
/// surface was found, or the error owed when it no longer exists.
pub fn current_url_reply(address: Option<String>) -> (r: Result<String, String>)
    ensures
        address matches Some(u) ==> (r matches Ok(v) && v@ == u@),
        address is None ==> (r matches Err(e) && e@ == "Webview not found"@),
{
    match address {
        Some(u) => Ok(u),
        None => Err(String::from_str("Webview not found")),
    }
}

/// What one poll tick observed of the monitored surface.
#[derive(Debug)]
pub enum UrlSample {
    /// The surface no longer exists.
    Absent,
    /// The surface exists but its address could not be read.
    ReadFailed,
    /// The surface's current address.
    Read(String),
}

/// The spec-level value of a `UrlSample`.
pub enum SampleView {
    Absent,
    ReadFailed,
    Read(Seq<char>),
}

impl View for UrlSample {
    type V = SampleView;

    open spec fn view(&self) -> SampleView {
        match self {
            UrlSample::Absent => SampleView::Absent,
            UrlSample::ReadFailed => SampleView::ReadFailed,
            UrlSample::Read(s) => SampleView::Read(s@),
        }
    }
}

impl DeepView for UrlSample {
    type V = SampleView;

    open spec fn deep_view(&self) -> SampleView {
        self.view()
    }
}

/// What the monitor does after one tick.
#[derive(Debug)]
pub enum MonitorAction {
    /// The surface is gone: the monitor stops, and nothing is ever
    /// published again.
    Stop,
    /// The address changed: publish it in a "url changed" notification.
    Publish(String),
    /// Nothing to report this tick.
    Silent,
}

/// One window group's URL monitor: the address last observed, initially
/// empty at task start.
#[derive(Debug)]
pub struct MonitorState {
    pub last_url: String,
}

impl MonitorState {
    pub fn new() -> (r: MonitorState)
        ensures
            r.last_url@ == Seq::<char>::empty(),
    {
        MonitorState { last_url: String::new() }
    }

    /// Feeds one tick's observation to the monitor. An absent surface
    /// stops the monitor; a failed read changes nothing; a read address is
    /// published exactly when it differs from the last observation, and
    /// then becomes the last observation.
    pub fn observe(&mut self, sample: &UrlSample) -> (a: MonitorAction)
        ensures
            sample@ is Absent ==> a is Stop && final(self).last_url@ == old(self).last_url@,
            sample@ is ReadFailed ==> a is Silent && final(self).last_url@ == old(self).last_url@,
            sample@ matches SampleView::Read(u) ==> (if u != old(self).last_url@ {
                a matches MonitorAction::Publish(p) && p@ == u && final(self).last_url@ == u
            } else {
                a is Silent && final(self).last_url@ == old(self).last_url@
            }),
    {
        match sample {
            UrlSample::Absent => MonitorAction::Stop,
            UrlSample::ReadFailed => MonitorAction::Silent,
            UrlSample::Read(u) => {
                if *u == self.last_url {
                    MonitorAction::Silent
                } else {
                    self.last_url = u.clone();
                    MonitorAction::Publish(u.clone())
                }
            },
        }
    }
}

/// The addresses a monitor started with last observation `last` publishes
/// over the observation sequence `samples`, in order: each read address
/// that differs from the one before it, up to the first absent sample.
pub open spec fn emissions_spec(samples: Seq<SampleView>, last: Seq<char>) -> Seq<Seq<char>>
    decreases samples.len(),
{
    if samples.len() == 0 {
        Seq::empty()
    } else {
        match samples[0] {
            SampleView::Absent => Seq::empty(),
            SampleView::ReadFailed => emissions_spec(samples.drop_first(), last),
            SampleView::Read(u) => if u != last {
                seq![u] + emissions_spec(samples.drop_first(), u)
            } else {
                emissions_spec(samples.drop_first(), last)
            },
        }
    }
}

/// Replays a whole observation sequence through a fresh monitor and
/// collects every published address, stopping when the surface is first
/// observed absent.
pub fn replay_monitor(samples: &Vec<UrlSample>) -> (r: Vec<String>)
    ensures
        r.deep_view() == emissions_spec(samples.deep_view(), Seq::<char>::empty()),
{
    let mut st = MonitorState::new();
    let mut out: Vec<String> = Vec::new();
    let n = samples.len();
    let mut i: usize = 0;
    proof {
        assert(samples.deep_view().skip(0) =~= samples.deep_view());
        assert(out.deep_view() =~= Seq::<Seq<char>>::empty());
        assert(Seq::<Seq<char>>::empty() + emissions_spec(samples.deep_view(), Seq::<char>::empty())
            =~= emissions_spec(samples.deep_view(), Seq::<char>::empty()));
    }
    while i < n
        invariant_except_break
            i <= n,
            n == samples@.len(),
            emissions_spec(samples.deep_view(), Seq::<char>::empty()) == out.deep_view()
                + emissions_spec(samples.deep_view().skip(i as int), st.last_url@),
        ensures
            emissions_spec(samples.deep_view(), Seq::<char>::empty()) == out.deep_view(),
        decreases n - i,
    {
        proof {
            let dv = samples.deep_view();
            assert(dv.len() == samples@.len());
            assert(dv.skip(i as int)[0] == dv[i as int]);
            assert(dv.skip(i as int).drop_first() =~= dv.skip(i as int + 1));
        }
        let ghost pre_out = out.deep_view();
        let a = st.observe(&samples[i]);
        match a {
            MonitorAction::Stop => {
                assert(out.deep_view() + Seq::<Seq<char>>::empty() =~= out.deep_view());
                break ;
            },
            MonitorAction::Publish(u) => {
                let ghost uv = u@;
                out.push(u);
                proof {
                    assert(out.deep_view() =~= pre_out.push(uv));
                    let rest = emissions_spec(
                        samples.deep_view().skip(i as int + 1),
                        st.last_url@,
                    );
                    assert(pre_out + (seq![uv] + rest) =~= pre_out.push(uv) + rest);
                }
            },
            MonitorAction::Silent => {},
        }
        i += 1;
    }
    proof {
        if i == samples.deep_view().len() {
            assert(samples.deep_view().skip(i as int) =~= Seq::<SampleView>::empty());
            assert(out.deep_view() + Seq::<Seq<char>>::empty() =~= out.deep_view());
        }
    }
    out
}

/// Once the surface has been observed absent the monitor has stopped:
/// whatever is observed after that point contributes no further
/// notifications.
pub proof fn lemma_no_notifications_after_absent(
    samples: Seq<SampleView>,
    last: Seq<char>,
    i: int,
)
    requires
        0 <= i < samples.len(),
        samples[i] is Absent,
    ensures
        emissions_spec(samples, last) == emissions_spec(samples.take(i), last),
    decreases i,
{
    if i == 0 {
        assert(samples.take(0) =~= Seq::<SampleView>::empty());
    } else {
        assert(samples.take(i)[0] == samples[0]);
        assert(samples.take(i).drop_first() =~= samples.drop_first().take(i - 1));
        assert(samples.drop_first()[i - 1] == samples[i]);
        match samples[0] {
            SampleView::Absent => {},
            SampleView::ReadFailed => {
                lemma_no_notifications_after_absent(samples.drop_first(), last, i - 1);
            },
            SampleView::Read(u) => {
                if u != last {
                    lemma_no_notifications_after_absent(samples.drop_first(), u, i - 1);
                } else {
                    lemma_no_notifications_after_absent(samples.drop_first(), last, i - 1);
                }
            },
        }
    }
}

} // verus!
