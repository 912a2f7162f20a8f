use vstd::prelude::*;

verus! {

/// Sampling strategy the decoder uses for one inference call.
#[derive(Debug, Clone, Copy, PartialEq, Eq, Structural)]
pub enum SenseVoiceDecodingStrategy {
    SamplingGreedy,
    SamplingBeamSearch,
}

/// Sub-parameters of greedy sampling.
#[derive(Debug, Clone)]
pub struct GreedyParams {
    /// Number of candidates sampled; -1 when greedy sampling is not the strategy.
    pub best_of: i32,
}

/// Sub-parameters of beam search.
#[derive(Debug, Clone)]
pub struct BeamSearchParams {
    /// Width of the beam; -1 when beam search is not the strategy.
    pub beam_size: i32,
}

/// Sub-parameter value that marks the strategy which is not selected.
pub const UNUSED_STRATEGY_PARAM: i32 = -1;

/// Best-of count, or beam width, given to the selected strategy by default.
pub const DEFAULT_STRATEGY_PARAM: i32 = 5;

/// Upper bound of the default thread count.
pub const MAX_DEFAULT_THREADS: i32 = 4;

/// Default maximum length of the text context, in tokens.
pub const DEFAULT_MAX_TEXT_CTX: i32 = 16384;

/// Configuration of one inference call. It is not consumed by a call and may be reused.
#[derive(Debug, Clone)]
pub struct SenseVoiceFullParams {
    pub strategy: SenseVoiceDecodingStrategy,
    pub n_threads: i32,
    /// Language hint; "auto" asks the engine to detect the language.
    pub language: String,
    pub n_max_text_ctx: i32,
    pub offset_ms: i32,
    pub duration_ms: i32,
    pub no_timestamps: bool,
    pub single_segment: bool,
    pub print_progress: bool,
    pub print_timestamps: bool,
    pub debug_mode: bool,
    pub audio_ctx: i32,
    pub greedy: GreedyParams,
    pub beam_search: BeamSearchParams,
}

/// Mathematical value of a call configuration.
pub struct FullParamsView {
    pub strategy: SenseVoiceDecodingStrategy,
    pub n_threads: i32,
    pub language: Seq<char>,
    pub n_max_text_ctx: i32,
    pub offset_ms: i32,
    pub duration_ms: i32,
    pub no_timestamps: bool,
    pub single_segment: bool,
    pub print_progress: bool,
    pub print_timestamps: bool,
    pub debug_mode: bool,
    pub audio_ctx: i32,
    pub best_of: i32,
    pub beam_size: i32,
}

impl View for SenseVoiceFullParams {
    type V = FullParamsView;

    open spec fn view(&self) -> FullParamsView {
        FullParamsView {
            strategy: self.strategy,
            n_threads: self.n_threads,
            language: self.language@,
            n_max_text_ctx: self.n_max_text_ctx,
            offset_ms: self.offset_ms,
            duration_ms: self.duration_ms,
            no_timestamps: self.no_timestamps,
            single_segment: self.single_segment,
            print_progress: self.print_progress,
            print_timestamps: self.print_timestamps,
            debug_mode: self.debug_mode,
            audio_ctx: self.audio_ctx,
            best_of: self.greedy.best_of,
            beam_size: self.beam_search.beam_size,
        }
    }
}

/// Thread count used when none is set: the parallelism that the machine reports, but at
/// most four; four when the machine reports none.
pub open spec fn default_threads(available_parallelism: Option<usize>) -> i32 {
    match available_parallelism {
        Some(n) => if n < MAX_DEFAULT_THREADS { n as i32 } else { MAX_DEFAULT_THREADS },
        None => MAX_DEFAULT_THREADS,
    }
}

/// The configuration a builder starts from. The selected strategy's sub-parameter is five,
/// the other one's is the unused marker.
pub open spec fn default_view(
    strategy: SenseVoiceDecodingStrategy,
    available_parallelism: Option<usize>,
) -> FullParamsView {
    FullParamsView {
        strategy,
        n_threads: default_threads(available_parallelism),
        language: seq!['a', 'u', 't', 'o'],
        n_max_text_ctx: DEFAULT_MAX_TEXT_CTX,
        offset_ms: 0,
        duration_ms: 0,
        no_timestamps: false,
        single_segment: true,
        print_progress: true,
        print_timestamps: true,
        debug_mode: false,
        audio_ctx: 0,
        best_of: if strategy == SenseVoiceDecodingStrategy::SamplingGreedy {
            DEFAULT_STRATEGY_PARAM
        } else {
            UNUSED_STRATEGY_PARAM
        },
        beam_size: if strategy == SenseVoiceDecodingStrategy::SamplingBeamSearch {
            DEFAULT_STRATEGY_PARAM
        } else {
            UNUSED_STRATEGY_PARAM
        },
    }
}

/// One override that a builder setter applies: the field it names and its new value.
pub enum Setting {
    NThreads(i32),
    Language(Seq<char>),
    NMaxTextCtx(i32),
    OffsetMs(i32),
    DurationMs(i32),
    NoTimestamps(bool),
    SingleSegment(bool),
    PrintProgress(bool),
    PrintTimestamps(bool),
    DebugMode(bool),
    AudioCtx(i32),
    GreedyBestOf(i32),
    BeamSearchBeamSize(i32),
}

/// The field that a setting writes, as an index.
pub open spec fn field_of(s: Setting) -> int {
    match s {
        Setting::NThreads(_) => 0,
        Setting::Language(_) => 1,
        Setting::NMaxTextCtx(_) => 2,
        Setting::OffsetMs(_) => 3,
        Setting::DurationMs(_) => 4,
        Setting::NoTimestamps(_) => 5,
        Setting::SingleSegment(_) => 6,
        Setting::PrintProgress(_) => 7,
        Setting::PrintTimestamps(_) => 8,
        Setting::DebugMode(_) => 9,
        Setting::AudioCtx(_) => 10,
        Setting::GreedyBestOf(_) => 11,
        Setting::BeamSearchBeamSize(_) => 12,
    }
}

/// The configuration after one setting: its field takes the new value, every other
/// field keeps its own.
pub open spec fn apply(p: FullParamsView, s: Setting) -> FullParamsView {
    match s {
        Setting::NThreads(v) => FullParamsView { n_threads: v, ..p },
        Setting::Language(v) => FullParamsView { language: v, ..p },
        Setting::NMaxTextCtx(v) => FullParamsView { n_max_text_ctx: v, ..p },
        Setting::OffsetMs(v) => FullParamsView { offset_ms: v, ..p },
        Setting::DurationMs(v) => FullParamsView { duration_ms: v, ..p },
        Setting::NoTimestamps(v) => FullParamsView { no_timestamps: v, ..p },
        Setting::SingleSegment(v) => FullParamsView { single_segment: v, ..p },
        Setting::PrintProgress(v) => FullParamsView { print_progress: v, ..p },
        Setting::PrintTimestamps(v) => FullParamsView { print_timestamps: v, ..p },
        Setting::DebugMode(v) => FullParamsView { debug_mode: v, ..p },
        Setting::AudioCtx(v) => FullParamsView { audio_ctx: v, ..p },
        Setting::GreedyBestOf(v) => FullParamsView { best_of: v, ..p },
        Setting::BeamSearchBeamSize(v) => FullParamsView { beam_size: v, ..p },
    }
}

/// The configuration after a sequence of settings, applied first to last.
pub open spec fn apply_all(p: FullParamsView, ss: Seq<Setting>) -> FullParamsView
    decreases ss.len(),
{
    if ss.len() == 0 {
        p
    } else {
        apply(apply_all(p, ss.drop_last()), ss.last())
    }
}

/// The strategy-conditioned defaults: greedy sampling starts with best-of five and the beam
/// width unused; beam search starts with beam width five and best-of unused.
pub proof fn lemma_default_strategy_params(
    strategy: SenseVoiceDecodingStrategy,
    available_parallelism: Option<usize>,
)
    ensures
        strategy == SenseVoiceDecodingStrategy::SamplingGreedy ==> {
            &&& default_view(strategy, available_parallelism).best_of == 5
            &&& default_view(strategy, available_parallelism).beam_size == -1
        },
        strategy == SenseVoiceDecodingStrategy::SamplingBeamSearch ==> {
            &&& default_view(strategy, available_parallelism).best_of == -1
            &&& default_view(strategy, available_parallelism).beam_size == 5
        },
{
}

/// Last write wins: two settings of the same field leave the second one's value, as if
/// the first had not been made.
pub proof fn lemma_last_write_wins(p: FullParamsView, s1: Setting, s2: Setting)
    requires
        field_of(s1) == field_of(s2),
    ensures
        apply(apply(p, s1), s2) == apply(p, s2),
{
}

/// Settings of different fields may be made in either order with the same result.
#[verifier::spinoff_prover]
#[verifier::rlimit(60)]
pub proof fn lemma_settings_commute(p: FullParamsView, s1: Setting, s2: Setting)
    requires
        field_of(s1) != field_of(s2),
    ensures
        apply(apply(p, s1), s2) == apply(apply(p, s2), s1),
{
    match s1 {
        Setting::NThreads(_) => {},
        Setting::Language(_) => {},
        Setting::NMaxTextCtx(_) => {},
        Setting::OffsetMs(_) => {},
        Setting::DurationMs(_) => {},
        Setting::NoTimestamps(_) => {},
        Setting::SingleSegment(_) => {},
        Setting::PrintProgress(_) => {},
        Setting::PrintTimestamps(_) => {},
        Setting::DebugMode(_) => {},
        Setting::AudioCtx(_) => {},
        Setting::GreedyBestOf(_) => {},
        Setting::BeamSearchBeamSize(_) => {},
    }
}

/// The value that field `f` holds in `p`, as the setting that writes it.
pub open spec fn current(p: FullParamsView, f: int) -> Setting {
    if f == 0 {
        Setting::NThreads(p.n_threads)
    } else if f == 1 {
        Setting::Language(p.language)
    } else if f == 2 {
        Setting::NMaxTextCtx(p.n_max_text_ctx)
    } else if f == 3 {
        Setting::OffsetMs(p.offset_ms)
    } else if f == 4 {
        Setting::DurationMs(p.duration_ms)
    } else if f == 5 {
        Setting::NoTimestamps(p.no_timestamps)
    } else if f == 6 {
        Setting::SingleSegment(p.single_segment)
    } else if f == 7 {
        Setting::PrintProgress(p.print_progress)
    } else if f == 8 {
        Setting::PrintTimestamps(p.print_timestamps)
    } else if f == 9 {
        Setting::DebugMode(p.debug_mode)
    } else if f == 10 {
        Setting::AudioCtx(p.audio_ctx)
    } else if f == 11 {
        Setting::GreedyBestOf(p.best_of)
    } else {
        Setting::BeamSearchBeamSize(p.beam_size)
    }
}

/// The last setting of field `f` in `ss`; where `ss` sets it nowhere, its value in `p`.
pub open spec fn last_write(p: FullParamsView, ss: Seq<Setting>, f: int) -> Setting
    decreases ss.len(),
{
    if ss.len() == 0 {
        current(p, f)
    } else if field_of(ss.last()) == f {
        ss.last()
    } else {
        last_write(p, ss.drop_last(), f)
    }
}

/// One setting writes its own field and leaves every other field as it was.
pub proof fn lemma_apply_fields(p: FullParamsView, s: Setting, f: int)
    requires
        0 <= f < 13,
    ensures
        field_of(s) == f ==> current(apply(p, s), f) == s,
        field_of(s) != f ==> current(apply(p, s), f) == current(p, f),
        apply(p, s).strategy == p.strategy,
{
    match s {
        Setting::NThreads(_) => {},
        Setting::Language(_) => {},
        Setting::NMaxTextCtx(_) => {},
        Setting::OffsetMs(_) => {},
        Setting::DurationMs(_) => {},
        Setting::NoTimestamps(_) => {},
        Setting::SingleSegment(_) => {},
        Setting::PrintProgress(_) => {},
        Setting::PrintTimestamps(_) => {},
        Setting::DebugMode(_) => {},
        Setting::AudioCtx(_) => {},
        Setting::GreedyBestOf(_) => {},
        Setting::BeamSearchBeamSize(_) => {},
    }
}

/// Last write wins over any sequence of settings, in any order and any number of times:
/// every field ends with the value of its last setting, or keeps the value it started
/// with where it was never set, and the strategy never changes.
pub proof fn lemma_last_write_wins_all(p: FullParamsView, ss: Seq<Setting>, f: int)
    requires
        0 <= f < 13,
    ensures
        current(apply_all(p, ss), f) == last_write(p, ss, f),
        apply_all(p, ss).strategy == p.strategy,
    decreases ss.len(),
{
    if ss.len() > 0 {
        lemma_last_write_wins_all(p, ss.drop_last(), f);
        lemma_apply_fields(apply_all(p, ss.drop_last()), ss.last(), f);
    }
}

impl SenseVoiceFullParams {
    /// A builder for a call configuration with the given strategy, starting from the
    /// defaults; `available_parallelism` is what the machine reports, if anything.
    pub fn builder(
        strategy: SenseVoiceDecodingStrategy,
        available_parallelism: Option<usize>,
    ) -> (r: SenseVoiceFullParamsBuilder)
        ensures
            r@ == default_view(strategy, available_parallelism),
    {
        SenseVoiceFullParamsBuilder::new(strategy, available_parallelism)
    }

    /// The default call configuration for the given strategy.
    pub fn default_params(
        strategy: SenseVoiceDecodingStrategy,
        available_parallelism: Option<usize>,
    ) -> (r: Self)
        ensures
            r@ == default_view(strategy, available_parallelism),
    {
        SenseVoiceFullParamsBuilder::new(strategy, available_parallelism).build()
    }
}

/// Incremental construction of a call configuration. The strategy is fixed when the
/// builder is made; every setter overrides exactly one field, the last write winning.
pub struct SenseVoiceFullParamsBuilder {
    params: SenseVoiceFullParams,
}

impl View for SenseVoiceFullParamsBuilder {
    type V = FullParamsView;

    closed spec fn view(&self) -> FullParamsView {
        self.params@
    }
}

impl SenseVoiceFullParamsBuilder {
    pub fn new(strategy: SenseVoiceDecodingStrategy, available_parallelism: Option<usize>) -> (r:
        Self)
        ensures
            r@ == default_view(strategy, available_parallelism),
    {
        let n_threads: i32 = match available_parallelism {
            Some(n) => if n < MAX_DEFAULT_THREADS as usize {
                n as i32
            } else {
                MAX_DEFAULT_THREADS
            },
            None => MAX_DEFAULT_THREADS,
        };
        let language = "auto".to_owned();
        proof {
            reveal_strlit("auto");
            assert(language@ =~= seq!['a', 'u', 't', 'o']);
        }
        let mut params = SenseVoiceFullParams {
            strategy,
            n_threads,
            language,
            n_max_text_ctx: DEFAULT_MAX_TEXT_CTX,
            offset_ms: 0,
            duration_ms: 0,
            no_timestamps: false,
            single_segment: true,
            print_progress: true,
            print_timestamps: true,
            debug_mode: false,
            audio_ctx: 0,
            greedy: GreedyParams { best_of: UNUSED_STRATEGY_PARAM },
            beam_search: BeamSearchParams { beam_size: UNUSED_STRATEGY_PARAM },
        };
        match strategy {
            SenseVoiceDecodingStrategy::SamplingGreedy => {
                params.greedy.best_of = DEFAULT_STRATEGY_PARAM;
            },
            SenseVoiceDecodingStrategy::SamplingBeamSearch => {
                params.beam_search.beam_size = DEFAULT_STRATEGY_PARAM;
            },
        }
        Self { params }
    }

    pub fn n_threads(self, n_threads: i32) -> (r: Self)
        ensures
            r@ == apply(self@, Setting::NThreads(n_threads)),
    {
        let mut b = self;
        b.params.n_threads = n_threads;
        b
    }

    pub fn language(self, language: &str) -> (r: Self)
        ensures
            r@ == apply(self@, Setting::Language(language@)),
    {
        let mut b = self;
        b.params.language = language.to_owned();
        b
    }

    pub fn n_max_text_ctx(self, n_max_text_ctx: i32) -> (r: Self)
        ensures
            r@ == apply(self@, Setting::NMaxTextCtx(n_max_text_ctx)),
    {
        let mut b = self;
        b.params.n_max_text_ctx = n_max_text_ctx;
        b
    }

    pub fn offset_ms(self, offset_ms: i32) -> (r: Self)
        ensures
            r@ == apply(self@, Setting::OffsetMs(offset_ms)),
    {
        let mut b = self;
        b.params.offset_ms = offset_ms;
        b
    }

    pub fn duration_ms(self, duration_ms: i32) -> (r: Self)
        ensures
            r@ == apply(self@, Setting::DurationMs(duration_ms)),
    {
        let mut b = self;
        b.params.duration_ms = duration_ms;
        b
    }

    pub fn no_timestamps(self, no_timestamps: bool) -> (r: Self)
        ensures
            r@ == apply(self@, Setting::NoTimestamps(no_timestamps)),
    {
        let mut b = self;
        b.params.no_timestamps = no_timestamps;
        b
    }

    pub fn single_segment(self, single_segment: bool) -> (r: Self)
        ensures
            r@ == apply(self@, Setting::SingleSegment(single_segment)),
    {
        let mut b = self;
        b.params.single_segment = single_segment;
        b
    }

    pub fn print_progress(self, print_progress: bool) -> (r: Self)
        ensures
            r@ == apply(self@, Setting::PrintProgress(print_progress)),
    {
        let mut b = self;
        b.params.print_progress = print_progress;
        b
    }

    pub fn print_timestamps(self, print_timestamps: bool) -> (r: Self)
        ensures
            r@ == apply(self@, Setting::PrintTimestamps(print_timestamps)),
    {
        let mut b = self;
        b.params.print_timestamps = print_timestamps;
        b
    }

    pub fn debug_mode(self, debug_mode: bool) -> (r: Self)
        ensures
            r@ == apply(self@, Setting::DebugMode(debug_mode)),
    {
        let mut b = self;
        b.params.debug_mode = debug_mode;
        b
    }

    pub fn audio_ctx(self, audio_ctx: i32) -> (r: Self)
        ensures
            r@ == apply(self@, Setting::AudioCtx(audio_ctx)),
    {
        let mut b = self;
        b.params.audio_ctx = audio_ctx;
        b
    }

    pub fn greedy_best_of(self, best_of: i32) -> (r: Self)
        ensures
            r@ == apply(self@, Setting::GreedyBestOf(best_of)),
    {
        let mut b = self;
        b.params.greedy.best_of = best_of;
        b
    }

    pub fn beam_search_beam_size(self, beam_size: i32) -> (r: Self)
        ensures
            r@ == apply(self@, Setting::BeamSearchBeamSize(beam_size)),
    {
        let mut b = self;
        b.params.beam_search.beam_size = beam_size;
        b
    }

    /// The finished configuration. Every builder state yields one.
    pub fn build(self) -> (r: SenseVoiceFullParams)
        ensures
            r@ == self@,
    {
        self.params
    }
}

} // verus!
