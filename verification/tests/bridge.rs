use duckling_bridge::{
    default_locale_lang, get_current_ref_time, init, load_time_zones, parse_dimensions,
    parse_lang, parse_locale, parse_ref_time, parse_text, shutdown, stop, CText, Context,
    DucklingError, ForeignEngine, HaskellValue, Runtime,
};

fn raw(v: HaskellValue) -> u64 {
    match v {
        HaskellValue::Opaque(x) => x,
    }
}

fn content(t: &CText) -> Vec<u8> {
    let all = t.terminated();
    all[..all.len() - 1].to_vec()
}

/// A counting test double for the foreign engine: every entry point bumps
/// `foreign_calls`, destructors record the pointers they were fed, and the
/// marshaled arguments are kept for inspection.
struct FakeEngine {
    foreign_calls: u32,
    starts: u32,
    hooks: u32,
    exits: u32,
    next_token: u64,
    destroyed: Vec<u64>,
    dim_lists_destroyed: u32,
    last_tz_path: Vec<u8>,
    last_ref_time: Option<(u64, Vec<u8>, i64)>,
    dim_names: Vec<Vec<u8>>,
    pending_dim_len: usize,
    created_list: Vec<u64>,
    last_parse: Option<(Vec<u8>, u64, u64, u64, bool)>,
    parse_result: Vec<u8>,
}

impl FakeEngine {
    fn new() -> FakeEngine {
        FakeEngine {
            foreign_calls: 0,
            starts: 0,
            hooks: 0,
            exits: 0,
            next_token: 0,
            destroyed: Vec::new(),
            dim_lists_destroyed: 0,
            last_tz_path: Vec::new(),
            last_ref_time: None,
            dim_names: Vec::new(),
            pending_dim_len: 0,
            created_list: Vec::new(),
            last_parse: None,
            parse_result: Vec::new(),
        }
    }

    fn fresh(&mut self) -> HaskellValue {
        self.next_token += 1;
        HaskellValue::Opaque(self.next_token)
    }
}

impl ForeignEngine for FakeEngine {
    fn runtime_init(&mut self) {
        self.foreign_calls += 1;
        self.starts += 1;
    }

    fn install_exit_hook(&mut self) {
        self.hooks += 1;
    }

    fn runtime_exit(&mut self) {
        self.foreign_calls += 1;
        self.exits += 1;
    }

    fn load_time_zone_series(&mut self, path: &CText) -> HaskellValue {
        self.foreign_calls += 1;
        self.last_tz_path = content(path);
        self.fresh()
    }

    fn current_ref_time(&mut self, tzdb: HaskellValue, tz: &CText) -> HaskellValue {
        self.foreign_calls += 1;
        self.last_ref_time = Some((raw(tzdb), content(tz), 0));
        self.fresh()
    }

    fn parse_ref_time(&mut self, tzdb: HaskellValue, tz: &CText, timestamp: i64) -> HaskellValue {
        self.foreign_calls += 1;
        self.last_ref_time = Some((raw(tzdb), content(tz), timestamp));
        self.fresh()
    }

    fn parse_lang(&mut self, lang: &CText) -> HaskellValue {
        self.foreign_calls += 1;
        // The engine's documented defaulting: a code it does not know is
        // treated as English.
        let code = content(lang);
        if code == b"es".to_vec() {
            HaskellValue::Opaque(2000)
        } else {
            HaskellValue::Opaque(1000)
        }
    }

    fn default_locale(&mut self, lang: HaskellValue) -> HaskellValue {
        self.foreign_calls += 1;
        HaskellValue::Opaque(raw(lang) + 1)
    }

    fn parse_locale(&mut self, locale: &CText, default_locale: HaskellValue) -> HaskellValue {
        self.foreign_calls += 1;
        let code = content(locale);
        if code == b"en_US".to_vec() {
            HaskellValue::Opaque(3000)
        } else {
            default_locale
        }
    }

    fn parse_dimensions(&mut self, names: &Vec<CText>) -> HaskellValue {
        self.foreign_calls += 1;
        self.dim_names = names.iter().map(content).collect();
        self.pending_dim_len = names.len();
        self.fresh()
    }

    fn dimension_list_length(&mut self, _dims: HaskellValue) -> usize {
        self.foreign_calls += 1;
        self.pending_dim_len
    }

    fn dimension_list_ptrs(&mut self, _dims: HaskellValue, len: usize) -> Vec<HaskellValue> {
        self.foreign_calls += 1;
        let mut out = Vec::new();
        for _ in 0..len {
            out.push(self.fresh());
        }
        out
    }

    fn dimension_list_create(&mut self, ptrs: &Vec<HaskellValue>) -> HaskellValue {
        self.foreign_calls += 1;
        self.created_list = ptrs.iter().map(|p| raw(*p)).collect();
        self.fresh()
    }

    fn dimension_list_destroy(&mut self, _dims: HaskellValue) {
        self.foreign_calls += 1;
        self.dim_lists_destroyed += 1;
    }

    fn dimension_destroy(&mut self, dim: HaskellValue) {
        self.foreign_calls += 1;
        self.destroyed.push(raw(dim));
    }

    fn tzdb_destroy(&mut self, db: HaskellValue) {
        self.foreign_calls += 1;
        self.destroyed.push(raw(db));
    }

    fn time_destroy(&mut self, time: HaskellValue) {
        self.foreign_calls += 1;
        self.destroyed.push(raw(time));
    }

    fn lang_destroy(&mut self, lang: HaskellValue) {
        self.foreign_calls += 1;
        self.destroyed.push(raw(lang));
    }

    fn locale_destroy(&mut self, locale: HaskellValue) {
        self.foreign_calls += 1;
        self.destroyed.push(raw(locale));
    }

    fn parse_text(
        &mut self,
        text: &CText,
        reference_time: HaskellValue,
        locale: HaskellValue,
        dimensions: HaskellValue,
        with_latent: bool,
    ) -> Vec<u8> {
        self.foreign_calls += 1;
        self.last_parse = Some((
            content(text),
            raw(reference_time),
            raw(locale),
            raw(dimensions),
            with_latent,
        ));
        self.parse_result.clone()
    }
}

fn running_runtime(engine: &mut FakeEngine) -> Runtime {
    let mut rt = Runtime::new();
    init(&mut rt, engine);
    rt
}

#[test]
fn init_is_idempotent_and_starts_once() {
    let mut e = FakeEngine::new();
    let mut rt = Runtime::new();
    assert!(!rt.running());
    let first = init(&mut rt, &mut e);
    assert!(first);
    assert!(rt.running());
    let second = init(&mut rt, &mut e);
    assert!(!second);
    let third = init(&mut rt, &mut e);
    assert!(!third);
    assert!(rt.running());
    assert_eq!(e.starts, 1);
    assert_eq!(e.hooks, 1);
}

#[test]
fn stop_succeeds_exactly_once() {
    let mut e = FakeEngine::new();
    let mut rt = running_runtime(&mut e);
    assert_eq!(stop(&mut rt, &mut e), Ok(()));
    assert_eq!(e.exits, 1);
    assert!(!rt.running());
    assert_eq!(
        stop(&mut rt, &mut e),
        Err(DucklingError::RuntimeAlreadyStopped)
    );
    assert_eq!(
        stop(&mut rt, &mut e),
        Err(DucklingError::RuntimeAlreadyStopped)
    );
    assert_eq!(e.exits, 1);
}

#[test]
fn stop_before_init_is_safe_but_consumes_the_permission() {
    let mut e = FakeEngine::new();
    let mut rt = Runtime::new();
    assert_eq!(stop(&mut rt, &mut e), Ok(()));
    // The runtime never started, so nothing was shut down foreign-side.
    assert_eq!(e.exits, 0);
    assert_eq!(
        stop(&mut rt, &mut e),
        Err(DucklingError::RuntimeAlreadyStopped)
    );
}

#[test]
fn exit_hook_shutdown_is_idempotent() {
    let mut e = FakeEngine::new();
    let mut rt = running_runtime(&mut e);
    assert!(shutdown(&mut rt, &mut e));
    assert_eq!(e.exits, 1);
    assert!(!shutdown(&mut rt, &mut e));
    assert!(!shutdown(&mut rt, &mut e));
    assert_eq!(e.exits, 1);
    assert!(!rt.running());
}

#[test]
fn stop_and_exit_hook_share_one_shutdown() {
    // Explicit stop first: the later hook run must not shut down again.
    let mut e = FakeEngine::new();
    let mut rt = running_runtime(&mut e);
    assert_eq!(stop(&mut rt, &mut e), Ok(()));
    assert!(!shutdown(&mut rt, &mut e));
    assert_eq!(e.exits, 1);

    // Hook first: the later explicit stop must not shut down again.
    let mut e2 = FakeEngine::new();
    let mut rt2 = running_runtime(&mut e2);
    assert!(shutdown(&mut rt2, &mut e2));
    assert_eq!(stop(&mut rt2, &mut e2), Ok(()));
    assert_eq!(e2.exits, 1);
}

#[test]
fn facade_fails_before_init_without_foreign_calls() {
    let mut e = FakeEngine::new();
    let rt = Runtime::new();
    assert_eq!(
        load_time_zones(&mut e, &rt, "/usr/share/zoneinfo").unwrap_err(),
        DucklingError::RuntimeNotInitialized
    );
    assert_eq!(
        parse_lang(&mut e, &rt, "en").unwrap_err(),
        DucklingError::RuntimeNotInitialized
    );
    assert_eq!(
        parse_dimensions(&mut e, &rt, &vec!["time".to_string()]).unwrap_err(),
        DucklingError::RuntimeNotInitialized
    );
    assert_eq!(e.foreign_calls, 0);
}

#[test]
fn facade_fails_after_stop() {
    let mut e = FakeEngine::new();
    let mut rt = running_runtime(&mut e);
    stop(&mut rt, &mut e).unwrap();
    let before = e.foreign_calls;
    assert_eq!(
        parse_lang(&mut e, &rt, "en").unwrap_err(),
        DucklingError::RuntimeNotInitialized
    );
    assert_eq!(e.foreign_calls, before);
}

#[test]
fn embedded_nul_fails_before_any_foreign_call() {
    let mut e = FakeEngine::new();
    let rt = running_runtime(&mut e);
    let tz_db = load_time_zones(&mut e, &rt, "/usr/share/zoneinfo").unwrap();
    let lang = parse_lang(&mut e, &rt, "en").unwrap();
    let locale = default_locale_lang(&mut e, &rt, &lang).unwrap();
    let time = parse_ref_time(&mut e, &rt, &tz_db, "UTC", 0).unwrap();
    let dims = parse_dimensions(&mut e, &rt, &vec!["time".to_string()]).unwrap();

    let before = e.foreign_calls;
    assert_eq!(
        load_time_zones(&mut e, &rt, "/zone\0info").unwrap_err(),
        DucklingError::InvalidText
    );
    assert_eq!(
        get_current_ref_time(&mut e, &rt, &tz_db, "UT\0C").unwrap_err(),
        DucklingError::InvalidText
    );
    assert_eq!(
        parse_ref_time(&mut e, &rt, &tz_db, "UT\0C", 0).unwrap_err(),
        DucklingError::InvalidText
    );
    assert_eq!(
        parse_lang(&mut e, &rt, "e\0n").unwrap_err(),
        DucklingError::InvalidText
    );
    assert_eq!(
        parse_locale(&mut e, &rt, "en\0US", &locale).unwrap_err(),
        DucklingError::InvalidText
    );
    assert_eq!(
        parse_dimensions(&mut e, &rt, &vec!["time".to_string(), "dura\0tion".to_string()])
            .unwrap_err(),
        DucklingError::InvalidText
    );
    let ctx = Context::new(time, locale);
    assert_eq!(
        parse_text(&mut e, &rt, "now\0", &ctx, &dims, false).unwrap_err(),
        DucklingError::InvalidText
    );
    assert_eq!(e.foreign_calls, before);
}

#[test]
fn load_time_zones_marshals_the_path() {
    let mut e = FakeEngine::new();
    let rt = running_runtime(&mut e);
    let tz_db = load_time_zones(&mut e, &rt, "/usr/share/zoneinfo").unwrap();
    assert!(!tz_db.is_cleared());
    assert_eq!(e.last_tz_path, b"/usr/share/zoneinfo".to_vec());
}

#[test]
fn parse_ref_time_passes_zone_and_timestamp() {
    let mut e = FakeEngine::new();
    let rt = running_runtime(&mut e);
    let tz_db = load_time_zones(&mut e, &rt, "/usr/share/zoneinfo").unwrap();
    let db_token = raw(tz_db.value());
    let time = parse_ref_time(&mut e, &rt, &tz_db, "America/Bogota", 1546915200).unwrap();
    assert!(!time.is_cleared());
    assert_eq!(
        e.last_ref_time,
        Some((db_token, b"America/Bogota".to_vec(), 1546915200))
    );
}

#[test]
fn get_current_ref_time_passes_the_zone() {
    let mut e = FakeEngine::new();
    let rt = running_runtime(&mut e);
    let tz_db = load_time_zones(&mut e, &rt, "/usr/share/zoneinfo").unwrap();
    let db_token = raw(tz_db.value());
    let time = get_current_ref_time(&mut e, &rt, &tz_db, "UTC").unwrap();
    assert!(!time.is_cleared());
    assert_eq!(e.last_ref_time, Some((db_token, b"UTC".to_vec(), 0)));
}

#[test]
fn parse_lang_unknown_code_defaults_to_english() {
    let mut e = FakeEngine::new();
    let rt = running_runtime(&mut e);
    let unknown = parse_lang(&mut e, &rt, "xx").unwrap();
    let english = parse_lang(&mut e, &rt, "en").unwrap();
    let spanish = parse_lang(&mut e, &rt, "es").unwrap();
    assert_eq!(unknown.value(), english.value());
    assert_ne!(spanish.value(), english.value());
}

#[test]
fn parse_locale_falls_back_to_the_default() {
    let mut e = FakeEngine::new();
    let rt = running_runtime(&mut e);
    let lang = parse_lang(&mut e, &rt, "en").unwrap();
    let fallback = default_locale_lang(&mut e, &rt, &lang).unwrap();
    let known = parse_locale(&mut e, &rt, "en_US", &fallback).unwrap();
    assert_ne!(known.value(), fallback.value());
    let unknown = parse_locale(&mut e, &rt, "zz_ZZ", &fallback).unwrap();
    assert_eq!(unknown.value(), fallback.value());
}

#[test]
fn parse_dimensions_single_name_yields_single_handle() {
    let mut e = FakeEngine::new();
    let rt = running_runtime(&mut e);
    let dims = parse_dimensions(&mut e, &rt, &vec!["time".to_string()]).unwrap();
    assert_eq!(dims.len(), 1);
    assert!(!dims[0].is_cleared());
    assert!(raw(dims[0].value()) != 0);
    assert_eq!(e.dim_names, vec![b"time".to_vec()]);
    // The transient foreign list was released; the identifiers were not.
    assert_eq!(e.dim_lists_destroyed, 1);
    assert!(e.destroyed.is_empty());
}

#[test]
fn parse_dimensions_keeps_order_and_count() {
    let mut e = FakeEngine::new();
    let rt = running_runtime(&mut e);
    let names = vec!["time".to_string(), "duration".to_string(), "quantity".to_string()];
    let dims = parse_dimensions(&mut e, &rt, &names).unwrap();
    assert_eq!(dims.len(), 3);
    assert_eq!(
        e.dim_names,
        vec![b"time".to_vec(), b"duration".to_vec(), b"quantity".to_vec()]
    );
}

#[test]
fn parse_dimensions_empty_list() {
    let mut e = FakeEngine::new();
    let rt = running_runtime(&mut e);
    let dims = parse_dimensions(&mut e, &rt, &Vec::new()).unwrap();
    assert!(dims.is_empty());
}

#[test]
fn parse_text_round_trips_the_engine_result() {
    let mut e = FakeEngine::new();
    let rt = running_runtime(&mut e);
    let tz_db = load_time_zones(&mut e, &rt, "/usr/share/zoneinfo").unwrap();
    let time = parse_ref_time(&mut e, &rt, &tz_db, "UTC", 1546915200).unwrap();
    let time_token = raw(time.value());
    let lang = parse_lang(&mut e, &rt, "en").unwrap();
    let locale = default_locale_lang(&mut e, &rt, &lang).unwrap();
    let locale_token = raw(locale.value());
    let dims = parse_dimensions(&mut e, &rt, &vec!["time".to_string()]).unwrap();
    let dim_tokens: Vec<u64> = dims.iter().map(|d| raw(d.value())).collect();
    let ctx = Context::new(time, locale);

    e.parse_result = b"[{\"dim\":\"time\",\"body\":\"tomorrow at 5pm\"}]".to_vec();
    let lists_before = e.dim_lists_destroyed;
    let result = parse_text(&mut e, &rt, "tomorrow at 5pm", &ctx, &dims, false).unwrap();
    assert!(!result.is_empty());
    assert!(result.contains("\"dim\":\"time\""));

    let (text, rt_token, loc_token, _list, latent) = e.last_parse.clone().unwrap();
    assert_eq!(text, b"tomorrow at 5pm".to_vec());
    assert_eq!(rt_token, time_token);
    assert_eq!(loc_token, locale_token);
    assert!(!latent);
    assert_eq!(e.created_list, dim_tokens);
    // The transient dimension list was released before the call returned.
    assert_eq!(e.dim_lists_destroyed, lists_before + 1);
}

#[test]
fn parse_text_passes_the_latent_flag() {
    let mut e = FakeEngine::new();
    let rt = running_runtime(&mut e);
    let tz_db = load_time_zones(&mut e, &rt, "/usr/share/zoneinfo").unwrap();
    let time = parse_ref_time(&mut e, &rt, &tz_db, "UTC", 0).unwrap();
    let lang = parse_lang(&mut e, &rt, "en").unwrap();
    let locale = default_locale_lang(&mut e, &rt, &lang).unwrap();
    let ctx = Context::new(time, locale);
    e.parse_result = b"[]".to_vec();
    parse_text(&mut e, &rt, "7", &ctx, &Vec::new(), true).unwrap();
    let (_, _, _, _, latent) = e.last_parse.clone().unwrap();
    assert!(latent);
}

#[test]
fn parse_text_decodes_invalid_engine_bytes_lossily() {
    let mut e = FakeEngine::new();
    let rt = running_runtime(&mut e);
    let tz_db = load_time_zones(&mut e, &rt, "/usr/share/zoneinfo").unwrap();
    let time = parse_ref_time(&mut e, &rt, &tz_db, "UTC", 0).unwrap();
    let lang = parse_lang(&mut e, &rt, "en").unwrap();
    let locale = default_locale_lang(&mut e, &rt, &lang).unwrap();
    let ctx = Context::new(time, locale);
    e.parse_result = vec![0xff, b'o', b'k'];
    let result = parse_text(&mut e, &rt, "now", &ctx, &Vec::new(), false).unwrap();
    assert_eq!(result, "\u{FFFD}ok");
}

#[test]
fn tzdb_clear_runs_the_destructor_once() {
    let mut e = FakeEngine::new();
    let rt = running_runtime(&mut e);
    let mut tz_db = load_time_zones(&mut e, &rt, "/usr/share/zoneinfo").unwrap();
    let token = raw(tz_db.value());
    assert!(tz_db.clear(&mut e));
    assert_eq!(e.destroyed, vec![token]);
    assert!(!tz_db.clear(&mut e));
    assert!(!tz_db.clear(&mut e));
    assert_eq!(e.destroyed, vec![token]);
    assert!(tz_db.is_cleared());
}

#[test]
fn time_clear_runs_the_destructor_once() {
    let mut e = FakeEngine::new();
    let rt = running_runtime(&mut e);
    let tz_db = load_time_zones(&mut e, &rt, "/usr/share/zoneinfo").unwrap();
    let mut time = get_current_ref_time(&mut e, &rt, &tz_db, "UTC").unwrap();
    let token = raw(time.value());
    assert!(time.clear(&mut e));
    assert!(!time.clear(&mut e));
    assert_eq!(e.destroyed, vec![token]);
}

#[test]
fn lang_clear_runs_the_destructor_once() {
    let mut e = FakeEngine::new();
    let rt = running_runtime(&mut e);
    let mut lang = parse_lang(&mut e, &rt, "en").unwrap();
    let token = raw(lang.value());
    assert!(lang.clear(&mut e));
    assert!(!lang.clear(&mut e));
    assert_eq!(e.destroyed, vec![token]);
}

#[test]
fn locale_clear_runs_the_destructor_once() {
    let mut e = FakeEngine::new();
    let rt = running_runtime(&mut e);
    let lang = parse_lang(&mut e, &rt, "en").unwrap();
    let mut locale = default_locale_lang(&mut e, &rt, &lang).unwrap();
    let token = raw(locale.value());
    assert!(locale.clear(&mut e));
    assert!(!locale.clear(&mut e));
    assert_eq!(e.destroyed, vec![token]);
}

#[test]
fn dimension_clear_runs_the_destructor_once() {
    let mut e = FakeEngine::new();
    let rt = running_runtime(&mut e);
    let mut dims = parse_dimensions(&mut e, &rt, &vec!["time".to_string()]).unwrap();
    let token = raw(dims[0].value());
    assert!(dims[0].clear(&mut e));
    assert!(!dims[0].clear(&mut e));
    assert_eq!(e.destroyed, vec![token]);
}

#[test]
fn wrap_dimension_ptrs_wraps_each_pointer_in_order() {
    let ptrs = vec![
        HaskellValue::Opaque(5),
        HaskellValue::Opaque(9),
        HaskellValue::Opaque(2),
    ];
    let ws = duckling_bridge::wrap_dimension_ptrs(&ptrs);
    assert_eq!(ws.len(), 3);
    for (w, p) in ws.iter().zip(ptrs.iter()) {
        assert!(!w.is_cleared());
        assert_eq!(w.value(), *p);
    }
}

#[test]
fn dimension_ptrs_collects_each_owned_pointer_in_order() {
    let mut e = FakeEngine::new();
    let rt = running_runtime(&mut e);
    let names = vec!["time".to_string(), "duration".to_string()];
    let dims = parse_dimensions(&mut e, &rt, &names).unwrap();
    let ptrs = duckling_bridge::dimension_ptrs(&dims);
    assert_eq!(ptrs.len(), dims.len());
    for (p, d) in ptrs.iter().zip(dims.iter()) {
        assert_eq!(*p, d.value());
    }
}

#[test]
fn context_pairs_reference_time_and_locale() {
    let mut e = FakeEngine::new();
    let rt = running_runtime(&mut e);
    let tz_db = load_time_zones(&mut e, &rt, "/usr/share/zoneinfo").unwrap();
    let time = parse_ref_time(&mut e, &rt, &tz_db, "UTC", 42).unwrap();
    let lang = parse_lang(&mut e, &rt, "en").unwrap();
    let locale = default_locale_lang(&mut e, &rt, &lang).unwrap();
    let time_token = raw(time.value());
    let locale_token = raw(locale.value());
    let ctx = Context::new(time, locale);
    assert_eq!(raw(ctx.reference_time.value()), time_token);
    assert_eq!(raw(ctx.locale.value()), locale_token);
}
