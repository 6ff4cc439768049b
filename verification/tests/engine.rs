use chalaxata::chord::{split_pascal, Chord};
use chalaxata::note::{dim2frac, Harmonym, NotePart};
use chalaxata::parser::{parse_harmonym, ParseError};
use chalaxata::ratio::Ratio;
use chalaxata::score::{NoteDuration, Score};
use chalaxata::session::{Session, SessionReply};
use chalaxata::synth::{tone_table_len, PlayableChord, SynthError, Waveform};
use chalaxata::{DEFAULT_BASE_CENTIHZ, SAMPLE_RATE};

fn parse_ok(s: &str) -> Harmonym {
    parse_harmonym(s).expect("the input should parse")
}

fn ratio_f64(r: &Ratio) -> f64 {
    r.dividend() as f64 / r.divisor() as f64
}

#[test]
fn unison_evaluates_to_one() {
    assert_eq!(parse_ok("Ah").eval(), Ratio::from((1, 1)));
}

#[test]
fn octave_up_evaluates_to_two() {
    assert_eq!(parse_ok("Ah+").eval(), Ratio::from((2, 1)));
}

#[test]
fn octave_down_evaluates_to_half() {
    assert_eq!(parse_ok("Ah-").eval(), Ratio::from((1, 2)));
}

#[test]
fn chyli_is_fifteen_eighths() {
    let h = parse_ok("Chyli");
    assert_eq!(h.notes[1].degree(), 1);
    assert_eq!(h.notes[1].dim(), 2);
    assert_eq!(h.notes[2].degree(), 1);
    assert_eq!(h.notes[2].dim(), 3);
    assert_eq!(h.eval(), Ratio::from((15, 8)));
}

#[test]
fn trailing_input_is_rejected() {
    assert_eq!(parse_harmonym("Chy1"), Err(ParseError::TrailingInput));
}

#[test]
fn unknown_root_is_rejected() {
    assert_eq!(parse_harmonym("Qy"), Err(ParseError::NoRootMatch));
    assert_eq!(parse_harmonym(""), Err(ParseError::NoRootMatch));
}

#[test]
fn mixed_octave_markers_are_rejected() {
    assert_eq!(parse_harmonym("Ah+-"), Err(ParseError::TrailingInput));
    assert_eq!(parse_harmonym("Ah-+"), Err(ParseError::TrailingInput));
}

#[test]
fn octave_runs_are_capped() {
    let long_up = format!("Ah{}", "+".repeat(33));
    assert_eq!(parse_harmonym(&long_up), Err(ParseError::TrailingInput));
    let max_up = format!("Ah{}", "+".repeat(32));
    let h = parse_ok(&max_up);
    assert_eq!(h.eval().dividend(), 1u64 << 32);
    assert_eq!(h.eval().divisor(), 1);
    let long_down = format!("Ah{}", "-".repeat(33));
    assert_eq!(parse_harmonym(&long_down), Err(ParseError::TrailingInput));
}

#[test]
fn suffixes_must_ascend_in_dimension() {
    // "li" (dimension 3) cannot precede "chi" (dimension 2).
    assert_eq!(parse_harmonym("Lychi"), Err(ParseError::TrailingInput));
}

#[test]
fn longest_suffix_match_wins() {
    // "srv" must parse as one dimension-3 suffix of degree -3, not "s" + "rv".
    let h = parse_ok("Chysrv");
    assert_eq!(h.notes[2].degree(), -3);
    // "sch" after "Ah" is the dimension-2 suffix of degree -2, not "s" + "ch".
    let h2 = parse_ok("Ahsch");
    assert_eq!(h2.notes[1].degree(), -2);
}

#[test]
fn render_round_trips_through_the_parser() {
    for input in ["Ah", "Ah+", "Ah--", "Chy", "Chyli", "Chylimizi", "Srvu+", "Tschu", "Jusrprvkrv-"] {
        let h = parse_ok(input);
        let rendered = h.render_notation();
        let back = parse_ok(&rendered);
        assert_eq!(back, h, "round trip failed for {input}");
        assert_eq!(back.eval(), h.eval());
    }
}

#[test]
fn render_uses_root_of_lowest_nonzero_dimension() {
    assert_eq!(parse_ok("Chyli").render_notation(), "Chyli");
    assert_eq!(parse_ok("Ahli").render_notation(), "Ly");
    assert_eq!(parse_ok("Ah++").render_notation(), "Ah++");
}

#[test]
fn multiply_reduces_to_lowest_terms() {
    let a = Ratio::from((4, 6));
    let b = Ratio::from((2, 2));
    let p = a.multiply(b);
    assert_eq!(p, Ratio::from((2, 3)));
    let q = Ratio::from((3, 2)).multiply(Ratio::from((2, 3)));
    assert_eq!(q, Ratio::from((1, 1)));
    assert!(q.is_one());
}

#[test]
fn flip_swaps_the_fraction() {
    let r = Ratio::from((3, 2)).flip();
    assert_eq!(r, Ratio::from((2, 3)));
}

#[test]
fn pow_is_repeated_reduced_multiplication() {
    let r = Ratio::from((3, 2)).pow(3);
    assert_eq!(r, Ratio::from((27, 8)));
    assert_eq!(Ratio::from((3, 2)).pow(0), Ratio::from((1, 1)));
}

#[test]
fn dim2frac_maps_dimensions_to_base_ratios() {
    assert_eq!(dim2frac(1), Ratio::from((2, 1)));
    assert_eq!(dim2frac(2), Ratio::from((3, 2)));
    assert_eq!(dim2frac(3), Ratio::from((5, 4)));
    assert_eq!(dim2frac(4), Ratio::from((7, 4)));
    assert_eq!(dim2frac(5), Ratio::from((11, 4)));
}

#[test]
fn note_part_new_checks_ranges() {
    assert!(NotePart::new(2, 3).is_some());
    assert!(NotePart::new(2, 4).is_none());
    assert!(NotePart::new(2, -4).is_none());
    assert!(NotePart::new(6, 1).is_none());
}

#[test]
fn note_part_syllable_forms() {
    let p = NotePart::new(2, 1).unwrap();
    assert_eq!(p.to_root(), "Chy");
    assert_eq!(p.to_suffix(), "chi");
    let q = NotePart::new(5, -1).unwrap();
    assert_eq!(q.to_root(), "Tschu");
    assert_eq!(q.to_suffix(), "tsch");
}

#[test]
fn note_part_from_syllable_reads_both_forms() {
    let p = NotePart::from_syllable("Chy").unwrap();
    assert_eq!((p.dim(), p.degree()), (2, 1));
    let q: NotePart = "chi".parse().unwrap();
    assert_eq!((q.dim(), q.degree()), (2, 1));
    assert!(NotePart::from_syllable("Chyli").is_err());
    assert!("x".parse::<NotePart>().is_err());
}

#[test]
fn ordering_follows_float_evaluation() {
    let names = ["Ah-", "Su", "Ah", "Ly", "Chy", "Zy", "Ah+", "Chy+"];
    let tones: Vec<Harmonym> = names.iter().map(|n| parse_ok(n)).collect();
    for a in &tones {
        for b in &tones {
            let fa = ratio_f64(&a.eval());
            let fb = ratio_f64(&b.eval());
            assert_eq!(a.lt(b), fa < fb);
        }
    }
}

#[test]
fn chord_splits_at_uppercase_boundaries() {
    assert_eq!(split_pascal("ChyliScy"), vec!["Chyli", "Scy"]);
    assert_eq!(split_pascal("liScy"), vec!["li", "Scy"]);
    assert_eq!(split_pascal(""), Vec::<&str>::new());
    let chord = Chord::parse_chord("ChyliScy").unwrap();
    assert_eq!(chord.tones.len(), 2);
    assert_eq!(chord.tones[0], parse_ok("Chyli"));
    assert_eq!(chord.tones[1], parse_ok("Scy"));
}

#[test]
fn chord_failures_name_the_failing_groups() {
    let err = Chord::parse_chord("ChyQxLy").unwrap_err();
    assert_eq!(err, ParseError::ChordSplitFailure(vec![1]));
    let err2 = Chord::parse_chord("QxWy").unwrap_err();
    assert_eq!(err2, ParseError::ChordSplitFailure(vec![0, 1]));
}

#[test]
fn chord_sort_orders_by_pitch() {
    let mut chord = Chord::parse_chord("ChyLySu").unwrap();
    chord.sort();
    let rendered: Vec<String> = chord.tones.iter().map(|t| t.render_notation()).collect();
    assert_eq!(rendered, vec!["Su", "Ly", "Chy"]);
}

#[test]
fn synth_table_length_matches_rounded_frequency() {
    // A tone of ratio 3/2 over the 523.26 Hz base: 784.89 Hz rounds to 785,
    // and 48000 / 785 = 61 samples.
    let h = parse_ok("Chy");
    assert_eq!(tone_table_len(&h, DEFAULT_BASE_CENTIHZ), Some(61));
    let unison = parse_ok("Ah");
    // 523.26 rounds to 523; 48000 / 523 = 91.
    assert_eq!(tone_table_len(&unison, DEFAULT_BASE_CENTIHZ), Some(91));
}

#[test]
fn prerender_plans_one_table_per_tone() {
    let chord = Chord::parse_chord("ChyLy").unwrap();
    let mut playable = PlayableChord::new(chord, DEFAULT_BASE_CENTIHZ, Waveform::Triangle, false);
    playable.prerender().unwrap();
    assert_eq!(playable.lens.len(), 2);
    assert_eq!(playable.lens[0], 61);
    // 5/4 * 523.26 = 654.075 rounds to 654; 48000 / 654 = 73.
    assert_eq!(playable.lens[1], 73);
}

#[test]
fn prerender_refuses_inaudibly_low_tones() {
    // (2/3)^3 over 10 octaves down is far below half a hertz.
    let chord = Chord::parse_chord("Ju----------").unwrap();
    let mut playable = PlayableChord::new(chord, DEFAULT_BASE_CENTIHZ, Waveform::Triangle, false);
    assert_eq!(playable.prerender(), Err(SynthError::FrequencyOutOfRange));
}

#[test]
fn playback_cycles_each_tone_cursor() {
    let chord = Chord::parse_chord("Chy").unwrap();
    let mut playable = PlayableChord::new(chord, DEFAULT_BASE_CENTIHZ, Waveform::Sine, false);
    playable.prerender().unwrap();
    let len = playable.lens[0];
    for expected in 0..len {
        assert_eq!(playable.next_indices(), vec![Some(expected)]);
    }
    // After one full period the cursor wraps to the table's start.
    assert_eq!(playable.next_indices(), vec![Some(0)]);
}

#[test]
fn strum_delays_later_tones() {
    let chord = Chord::parse_chord("ChyLy").unwrap();
    let mut playable = PlayableChord::new(chord, DEFAULT_BASE_CENTIHZ, Waveform::Triangle, true);
    playable.prerender().unwrap();
    // At the very first sample only the first tone sounds: the second
    // starts at 1/20 s, which is sample 2400 at 48000 Hz.
    assert_eq!(playable.next_indices(), vec![Some(0), None]);
    for _ in 1..2400 {
        playable.next_indices();
    }
    let frame = playable.next_indices();
    assert_eq!(frame[1], Some(0));
}

#[test]
fn session_scenario_stack_gather_stop() {
    let mut session = Session::new();
    assert!(matches!(session.handle_line("stack"), SessionReply::StackToggled(true)));
    assert!(matches!(session.handle_line("Chy"), SessionReply::Play(_, true)));
    assert!(matches!(session.handle_line("Ly"), SessionReply::Play(_, true)));
    match session.handle_line("gather") {
        SessionReply::Gathered(s) => assert_eq!(s, "ChyLy"),
        other => panic!("expected a gather report, got {other:?}"),
    }
    assert!(matches!(session.handle_line("stop"), SessionReply::Stopped));
    match session.handle_line("gather") {
        SessionReply::Gathered(s) => assert_eq!(s, ""),
        other => panic!("expected a gather report, got {other:?}"),
    }
    assert!(session.tones.is_empty());
}

#[test]
fn session_without_stacking_does_not_accumulate() {
    let mut session = Session::new();
    assert!(matches!(session.handle_line("Chy"), SessionReply::Play(_, false)));
    assert!(session.tones.is_empty());
}

#[test]
fn session_toggles_and_rejections() {
    let mut session = Session::new();
    assert!(matches!(session.handle_line("strum"), SessionReply::StrumToggled(true)));
    assert!(matches!(session.handle_line("strum"), SessionReply::StrumToggled(false)));
    assert!(matches!(session.handle_line("help"), SessionReply::Help));
    assert!(matches!(session.handle_line("exit"), SessionReply::Exit));
    assert!(matches!(session.handle_line("Qx"), SessionReply::Rejected(_)));
    assert!(session.tones.is_empty());
    // Turning stacking off clears the accumulation.
    session.handle_line("stack");
    session.handle_line("Chy");
    assert_eq!(session.tones.len(), 1);
    session.handle_line("stack");
    assert!(session.tones.is_empty());
}

#[test]
fn session_play_reply_is_sorted() {
    let mut session = Session::new();
    match session.handle_line("ChyLySu") {
        SessionReply::Play(chord, false) => {
            let rendered: Vec<String> = chord.tones.iter().map(|t| t.render_notation()).collect();
            assert_eq!(rendered, vec!["Su", "Ly", "Chy"]);
        },
        other => panic!("expected a played chord, got {other:?}"),
    }
}

#[test]
fn score_accumulates_notes() {
    let mut score = Score::new();
    assert_eq!(score.sample_rate, SAMPLE_RATE);
    assert_eq!(score.total_frames, 0);
    score.push((NoteDuration { start: 0, dur: 250 }, parse_ok("Chy")));
    score.push((NoteDuration { start: 12000, dur: 500 }, parse_ok("Ly")));
    assert_eq!(score.notes.len(), 2);
    assert_eq!(score.notes[1].0.start, 12000);
}

#[test]
fn base_ratios_raise_and_invert_per_degree() {
    // Positive degrees raise the base ratio, negative degrees raise its
    // reciprocal: dimension 2 is 3/2, dimension 5 is 11/4.
    assert_eq!(parse_ok("Chy").eval(), Ratio::from((3, 2)));
    assert_eq!(parse_ok("Scy").eval(), Ratio::from((9, 4)));
    assert_eq!(parse_ok("Xcy").eval(), Ratio::from((27, 8)));
    assert_eq!(parse_ok("Fu").eval(), Ratio::from((2, 3)));
    assert_eq!(parse_ok("Schu").eval(), Ratio::from((4, 9)));
    assert_eq!(parse_ok("Ju").eval(), Ratio::from((8, 27)));
    assert_eq!(parse_ok("Drvy").eval(), Ratio::from((125, 64)));
    assert_eq!(parse_ok("Su").eval(), Ratio::from((4, 5)));
    assert_eq!(parse_ok("Mry").eval(), Ratio::from((49, 16)));
    assert_eq!(parse_ok("Zy").eval(), Ratio::from((11, 4)));
    assert_eq!(parse_ok("Tschu").eval(), Ratio::from((4, 11)));
    assert_eq!(parse_ok("Chy+").eval(), Ratio::from((3, 1)));
    assert_eq!(parse_ok("Chy-").eval(), Ratio::from((3, 4)));
}

#[test]
fn every_root_syllable_parses_to_its_lattice_point() {
    let roots: [(&str, u8, i8); 25] = [
        ("Ah", 1, 0),
        ("Chy", 2, 1), ("Scy", 2, 2), ("Xcy", 2, 3),
        ("Fu", 2, -1), ("Schu", 2, -2), ("Ju", 2, -3),
        ("Ly", 3, 1), ("Dry", 3, 2), ("Drvy", 3, 3),
        ("Su", 3, -1), ("Sru", 3, -2), ("Srvu", 3, -3),
        ("My", 4, 1), ("Mry", 4, 2), ("Mrvy", 4, 3),
        ("Pu", 4, -1), ("Pru", 4, -2), ("Prvu", 4, -3),
        ("Zy", 5, 1), ("Zry", 5, 2), ("Zrvy", 5, 3),
        ("Tschu", 5, -1), ("Kru", 5, -2), ("Krvu", 5, -3),
    ];
    for (text, dim, degree) in roots {
        let h = parse_ok(text);
        assert_eq!(h.notes[dim as usize - 1].degree(), degree, "root {text}");
        let p = NotePart::from_syllable(text).unwrap();
        assert_eq!((p.dim(), p.degree()), (dim, degree), "syllable {text}");
    }
}

#[test]
fn default_harmonym_is_the_unison() {
    let h = Harmonym::default();
    assert_eq!(h.eval(), Ratio::from((1, 1)));
    assert_eq!(h.render_notation(), "Ah");
}
