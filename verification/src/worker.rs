//! The single inference worker: it owns the loaded model, so transcription,
//! model switching and status queries are answered one at a time, in the
//! order they arrive.
use vstd::prelude::*;
use crate::text::{concat2, owned, string_from_chars, trim, trim_chars};

verus! {

/// The answer of `GET /health`.
pub struct HealthResponse {
    pub status: String,
    pub gpu_active: bool,
    pub active_device: String,
    pub loaded_model: String,
}

/// A loaded inference engine and whether it runs on the GPU.
pub struct LoadedEngine<E> {
    pub engine: E,
    pub use_gpu: bool,
}

/// What the worker holds: the name of the model it was last asked to run
/// (and managed to load, after the first), the configured device and GPU
/// use that every engine is loaded with, and the engine, if one loaded.
pub struct WorkerState<E> {
    pub current_model: String,
    pub active_device: String,
    pub use_gpu: bool,
    pub engine: Option<LoadedEngine<E>>,
}

/// The status that the worker reports: `ready` with an engine, `error`
/// without one.
pub open spec fn status_text(loaded: bool) -> Seq<char> {
    if loaded {
        "ready"@
    } else {
        "error"@
    }
}

/// What the worker reports of itself: whether an engine is loaded, whether
/// it runs on the GPU, and the current model.
pub struct WorkerView {
    pub loaded: bool,
    pub gpu_active: bool,
    pub model: Seq<char>,
}

/// The view after a model switch to `model`: `load` is the new engine's GPU
/// use when it loaded, `None` when it failed, which changes nothing.
pub open spec fn switched(v: WorkerView, model: Seq<char>, load: Option<bool>) -> WorkerView {
    match load {
        Some(gpu) => WorkerView { loaded: true, gpu_active: gpu, model },
        None => v,
    }
}

/// The view after a sequence of model switches, in order.
pub open spec fn after_switches(v: WorkerView, switches: Seq<(Seq<char>, Option<bool>)>) -> WorkerView
    decreases switches.len(),
{
    if switches.len() == 0 {
        v
    } else {
        let prev = after_switches(v, switches.drop_last());
        switched(prev, switches.last().0, switches.last().1)
    }
}

/// The last switch in `switches` that loaded its model: the model and the
/// engine's GPU use.
pub open spec fn last_loaded(switches: Seq<(Seq<char>, Option<bool>)>) -> Option<(Seq<char>, bool)>
    decreases switches.len(),
{
    if switches.len() == 0 {
        None
    } else {
        match switches.last().1 {
            Some(gpu) => Some((switches.last().0, gpu)),
            None => last_loaded(switches.drop_last()),
        }
    }
}

/// The outcome of a load as a switch sees it: the GPU use that the engine
/// was loaded with, or `None` for a failure.
pub open spec fn load_outcome<E>(load: Result<E, String>, use_gpu: bool) -> Option<bool> {
    match load {
        Ok(_) => Some(use_gpu),
        Err(_) => None,
    }
}

impl<E> WorkerState<E> {
    /// Every engine the worker holds runs as configured.
    pub open spec fn wf(&self) -> bool {
        self.engine matches Some(l) ==> l.use_gpu == self.use_gpu
    }

    pub open spec fn view_state(&self) -> WorkerView {
        WorkerView { loaded: self.loaded(), gpu_active: self.gpu_active(), model: self.current_model@ }
    }

    pub open spec fn loaded(&self) -> bool {
        self.engine is Some
    }

    pub open spec fn gpu_active(&self) -> bool {
        match self.engine {
            Some(e) => e.use_gpu,
            None => false,
        }
    }

    /// The worker at start-up: the configured model, loaded or not, on the
    /// configured device and GPU use.
    pub fn new(initial_model: String, active_device: String, use_gpu: bool, load: Result<E, String>) -> (w:
        WorkerState<E>)
        ensures
            w.wf(),
            w.current_model == initial_model,
            w.active_device == active_device,
            w.use_gpu == use_gpu,
            w.loaded() == load is Ok,
            load matches Ok(e) ==> w.engine == Some(LoadedEngine { engine: e, use_gpu }),
            w.view_state() == switched(
                WorkerView { loaded: false, gpu_active: false, model: initial_model@ },
                initial_model@,
                load_outcome(load, use_gpu),
            ),
    {
        let engine = match load {
            Ok(e) => Some(LoadedEngine { engine: e, use_gpu }),
            Err(_) => None,
        };
        WorkerState { current_model: initial_model, active_device, use_gpu, engine }
    }

    /// The answer to a status query.
    pub fn status(&self) -> (h: HealthResponse)
        ensures
            h.status@ == status_text(self.loaded()),
            h.gpu_active == self.gpu_active(),
            h.active_device@ == self.active_device@,
            h.loaded_model@ == self.current_model@,
    {
        let gpu_active = match &self.engine {
            Some(e) => e.use_gpu,
            None => false,
        };
        let status = if self.engine.is_some() {
            owned("ready")
        } else {
            owned("error")
        };
        HealthResponse {
            status,
            gpu_active,
            active_device: self.active_device.clone(),
            loaded_model: self.current_model.clone(),
        }
    }

    /// The engine to transcribe with, or the error that a transcription
    /// request is answered when none is loaded.
    pub fn engine_for_transcription(&self) -> (r: Result<&E, String>)
        ensures
            match r {
                Ok(e) => self.engine matches Some(l) && *e == l.engine,
                Err(msg) => !self.loaded() && msg@ == "Engine is not loaded"@,
            },
    {
        match &self.engine {
            Some(l) => Ok(&l.engine),
            None => Err(owned("Engine is not loaded")),
        }
    }

    /// Takes the outcome of loading `model` (with the configured GPU use):
    /// on success the new engine replaces the old one and `model` becomes the
    /// current model; on failure nothing changes and the error is the answer.
    pub fn apply_model(&mut self, model: String, load: Result<E, String>) -> (r: Result<(), String>)
        requires
            old(self).wf(),
        ensures
            final(self).wf(),
            final(self).use_gpu == old(self).use_gpu,
            match load {
                Ok(e) => r is Ok && final(self).engine == Some(
                    LoadedEngine { engine: e, use_gpu: old(self).use_gpu },
                ) && final(self).current_model == model && final(self).active_device == old(
                    self,
                ).active_device,
                Err(msg) => r == Err::<(), String>(msg) && *final(self) == *old(self),
            },
            final(self).view_state() == switched(
                old(self).view_state(),
                model@,
                load_outcome(load, old(self).use_gpu),
            ),
    {
        match load {
            Ok(e) => {
                self.engine = Some(LoadedEngine { engine: e, use_gpu: self.use_gpu });
                self.current_model = model;
                Ok(())
            },
            Err(msg) => Err(msg),
        }
    }
}

/// After a successful model switch the worker reports `ready`, with the new
/// model and the configured GPU use; after a failed one it reports just
/// what it reported before.
pub proof fn law_status_after_switch<E>(
    before: WorkerState<E>,
    after: WorkerState<E>,
    model: String,
    load: Result<E, String>,
)
    requires
        before.wf(),
        match load {
            Ok(e) => after.engine == Some(LoadedEngine { engine: e, use_gpu: before.use_gpu })
                && after.current_model == model && after.active_device == before.active_device,
            Err(_) => after == before,
        },
    ensures
        load is Ok ==> status_text(after.loaded()) == "ready"@ && after.current_model@ == model@
            && after.gpu_active() == before.use_gpu,
        load is Err ==> status_text(after.loaded()) == status_text(before.loaded())
            && after.current_model@ == before.current_model@ && after.gpu_active()
            == before.gpu_active(),
{
}

/// Whatever state it is in, a worker whose engine is loaded reports the
/// configured GPU use.
pub proof fn law_loaded_engine_runs_as_configured<E>(w: WorkerState<E>)
    requires
        w.wf(),
    ensures
        w.loaded() ==> w.view_state().gpu_active == w.use_gpu,
{
}

/// After any sequence of model switches, each loaded with the configured
/// GPU use or failed, the worker reports the model of the last switch that
/// loaded, the configured GPU use, and `ready`; when none loaded, it reports
/// just what it reported at the start.
pub proof fn law_status_after_switches(
    v: WorkerView,
    switches: Seq<(Seq<char>, Option<bool>)>,
    use_gpu: bool,
)
    requires
        forall|i: int| 0 <= i < switches.len() ==> (#[trigger] switches[i]).1 is None || switches[i].1
            == Some(use_gpu),
    ensures
        match last_loaded(switches) {
            Some((model, gpu)) => gpu == use_gpu && after_switches(v, switches) == (WorkerView {
                loaded: true,
                gpu_active: use_gpu,
                model,
            }) && status_text(after_switches(v, switches).loaded) == "ready"@,
            None => after_switches(v, switches) == v,
        },
    decreases switches.len(),
{
    if switches.len() > 0 {
        let prefix = switches.drop_last();
        assert forall|i: int| 0 <= i < prefix.len() implies (#[trigger] prefix[i]).1 is None
            || prefix[i].1 == Some(use_gpu) by {
            assert(prefix[i] == switches[i]);
        }
        law_status_after_switches(v, prefix, use_gpu);
        assert(switches[switches.len() - 1] == switches.last());
    }
}

/// The answer of `GET /health` when the worker could not be asked: the
/// status carries the error, no GPU, no model.
pub fn health_or_error(r: Result<HealthResponse, String>) -> (h: HealthResponse)
    ensures
        match r {
            Ok(x) => h == x,
            Err(e) => h.status@ == "error: "@ + e@ && !h.gpu_active && h.active_device@
                == Seq::<char>::empty() && h.loaded_model@ == Seq::<char>::empty(),
        },
{
    match r {
        Ok(x) => x,
        Err(e) => HealthResponse {
            status: concat2("error: ", e.as_str()),
            gpu_active: false,
            active_device: String::new(),
            loaded_model: String::new(),
        },
    }
}

/// The concatenation of a sequence of strings.
pub open spec fn concat_all(parts: Seq<Seq<char>>) -> Seq<char>
    decreases parts.len(),
{
    if parts.len() == 0 {
        Seq::<char>::empty()
    } else {
        concat_all(parts.drop_last()) + parts.last()
    }
}

/// The transcript of a run: the text of its segments, joined in order, with
/// the white space at either end removed.
pub fn transcript_text(segments: &Vec<String>) -> (t: String)
    ensures
        t@ == trim(concat_all(segments.deep_view())),
{
    let mut all: Vec<char> = Vec::new();
    let ghost sv = segments.deep_view();
    let mut i: usize = 0;
    while i < segments.len()
        invariant
            sv == segments.deep_view(),
            sv.len() == segments.len(),
            i <= segments.len(),
            all@ == concat_all(sv.subrange(0, i as int)),
        decreases segments.len() - i,
    {
        let piece = crate::text::chars_of(segments[i].as_str());
        let ghost before = all@;
        let mut k: usize = 0;
        while k < piece.len()
            invariant
                k <= piece.len(),
                all@ == before + piece@.subrange(0, k as int),
            decreases piece.len() - k,
        {
            all.push(piece[k]);
            k = k + 1;
        }
        proof {
            assert(piece@.subrange(0, piece@.len() as int) =~= piece@);
            let sub = sv.subrange(0, i + 1);
            assert(sub.drop_last() =~= sv.subrange(0, i as int));
            assert(sv[i as int] == segments@[i as int]@);
        }
        i = i + 1;
    }
    assert(sv.subrange(0, sv.len() as int) =~= sv);
    let trimmed = trim_chars(&all);
    string_from_chars(trimmed.as_slice())
}

} // verus!
