use sagepas::evaluate::{citation_offsets, contained_words, tokens_overlapping};
use sagepas::pdf_pages::order_page_images;
use sagepas::doc_pipeline::{
    clean_model_json, cu_endpoint, find_matching_lines, ground_conclusions, next_poll_interval_ms,
    normalize, page_image_source, poll_status, poll_timed_out, safe_truncate, schema_for_key,
    select_analyzer, kb_result_without_passages, pipeline_decision, CuError, CuSpan, ExtractOutcome, FieldSchema, OcrOutcome,
    PageImageSource, PipelineError, PollStatus, RawConclusion, RetrievedPassage, StageNote,
    StructuredExtractionError,
};

#[test]
fn every_content_type_uses_the_layout_analyzer() {
    assert_eq!(select_analyzer("application/pdf"), "prebuilt-layout");
    assert_eq!(select_analyzer("image/png"), "prebuilt-layout");
}

#[test]
fn schema_keys_map_to_schemas() {
    assert_eq!(schema_for_key("home"), Some(FieldSchema::PropertyClaim));
    assert_eq!(schema_for_key("motor"), Some(FieldSchema::AutoFnol));
    assert_eq!(schema_for_key("Auto"), None);
    assert_eq!(FieldSchema::MarineCargoFnol.file_name(), "marine_cargo_fnol.json");
}

#[test]
fn truncation_never_splits_a_character() {
    assert_eq!(safe_truncate("héllo", 2), "h");
    assert_eq!(safe_truncate("héllo", 3), "hé");
    assert_eq!(safe_truncate("abc", 10), "abc");
    assert_eq!(safe_truncate("abc", 0), "");
}

#[test]
fn model_answers_lose_their_fences() {
    assert_eq!(clean_model_json("  ```json\n{\"a\": 1}\n```  "), "{\"a\": 1}");
    assert_eq!(clean_model_json("```{}``````"), "{}");
    assert_eq!(clean_model_json("plain"), "plain");
}

#[test]
fn polling_rules() {
    assert_eq!(poll_status("Succeeded"), PollStatus::Succeeded);
    assert_eq!(poll_status("FAILED"), PollStatus::Failed);
    assert_eq!(poll_status("running"), PollStatus::Pending);
    assert_eq!(next_poll_interval_ms(500), 1000);
    assert_eq!(next_poll_interval_ms(2500), 4000);
    assert!(poll_timed_out(121_000_000_000, 120));
    assert!(!poll_timed_out(120_000_000_000, 120));
    assert_eq!(cu_endpoint("https://cu.example.com//"), "https://cu.example.com");
    assert_eq!(CuError::Timeout(120).message(), "CU polling timed out after 120s");
}

#[test]
fn page_images_by_content_type() {
    assert_eq!(page_image_source("Application/PDF"), PageImageSource::RasterizePdf);
    assert_eq!(page_image_source("image/JPEG"), PageImageSource::Upload);
    assert_eq!(page_image_source("text/plain"), PageImageSource::NoImages);
}

#[test]
fn matching_prefers_exact_lines() {
    let lines = vec![
        "Policy HO-1".to_string(),
        "  ho-1 ".to_string(),
        "HO-1 renewal".to_string(),
    ];
    assert_eq!(find_matching_lines("HO-1", &lines), vec![1]);
    assert_eq!(find_matching_lines("renewal", &lines), vec![2]);
    assert_eq!(find_matching_lines("   ", &lines), Vec::<usize>::new());
    assert_eq!(normalize("  ÀB "), "àb");
}

fn passage(text: &str) -> RetrievedPassage {
    RetrievedPassage {
        title: Some(format!("title {text}")),
        source: None,
        content: text.to_string(),
        score_bits: 1.5f64.to_bits(),
    }
}

#[test]
fn conclusions_carry_the_passages_they_cite() {
    let results = vec![passage("a"), passage("b"), passage("c")];
    let raw = vec![
        RawConclusion { statement: "one".to_string(), citation_indices: vec![2, 0, 7] },
        RawConclusion { statement: "two".to_string(), citation_indices: vec![] },
    ];
    let r = ground_conclusions(&results, raw);
    assert_eq!(r.retrieved_count, 3);
    // indices 0, 2 and 7 were cited; passage 1 was not, and 7 names no passage
    assert_eq!(r.uncited_count, 1);
    assert_eq!(r.conclusions[0].citations.len(), 2);
    assert_eq!(r.conclusions[0].citations[0].passage_text, "c");
    assert_eq!(f64::from_bits(r.conclusions[0].citations[0].relevance_score_bits), 1.5);
    assert!(r.conclusions[1].citations.is_empty());

    let raw = vec![RawConclusion { statement: "x".to_string(), citation_indices: vec![1, 1] }];
    assert_eq!(ground_conclusions(&results, raw).uncited_count, 2);
}

#[test]
fn words_count_toward_a_line_only_when_wholly_inside_it() {
    let line = CuSpan { offset: 10, length: 20 };
    let words = vec![
        CuSpan { offset: 10, length: 5 },
        CuSpan { offset: 8, length: 5 },
        CuSpan { offset: 25, length: 5 },
        CuSpan { offset: 26, length: 5 },
    ];
    assert_eq!(contained_words(&line, &words), vec![0, 2]);
    assert_eq!(contained_words(&line, &Vec::new()), Vec::<usize>::new());
}

#[test]
fn tokens_cover_a_value_when_their_text_overlaps_it() {
    // tokens "{\"", "name", "\":\"", "Asha", " Rao", "\"}" laid end to end
    let lens = vec![2, 4, 3, 4, 4, 2];
    // "Asha Rao" sits at [9, 17)
    assert_eq!(tokens_overlapping(&lens, 9, 17), vec![3, 4]);
    assert_eq!(tokens_overlapping(&lens, 8, 10), vec![2, 3]);
    assert_eq!(tokens_overlapping(&lens, 19, 25), Vec::<usize>::new());
}

#[test]
fn citation_offsets_are_clamped_at_zero() {
    assert_eq!(citation_offsets(&CuSpan { offset: 12, length: 8 }), (12, 20));
    assert_eq!(citation_offsets(&CuSpan { offset: -5, length: 3 }), (0, 0));
    assert_eq!(citation_offsets(&CuSpan { offset: -5, length: 9 }), (0, 4));
}

#[test]
fn rasterised_pages_are_read_in_page_order() {
    let names: Vec<String> = vec![
        "page-10.png", "page-02.png", "input.pdf", "page-1.png", ".png", "page-x.png", "page-3.PNG",
        "page-+4.png", "page-99999999999.png", "7.png",
    ]
    .into_iter()
    .map(|s| s.to_string())
    .collect();
    let pages = order_page_images(&names);
    let order: Vec<(u32, u64)> = pages.iter().map(|p| (p.page, p.position)).collect();
    assert_eq!(order, vec![(1, 3), (2, 1), (4, 7), (7, 9), (10, 0)]);
}

#[test]
fn a_citation_past_the_retrieved_passages_leaves_them_uncited() {
    let results = vec![passage("a")];
    let raw = vec![RawConclusion { statement: "s".to_string(), citation_indices: vec![5] }];
    let r = ground_conclusions(&results, raw);
    assert_eq!(r.retrieved_count, 1);
    assert_eq!(r.uncited_count, 1);
    assert!(r.conclusions[0].citations.is_empty());

    let raw = vec![RawConclusion { statement: "s".to_string(), citation_indices: vec![5, 0, 9] }];
    assert_eq!(ground_conclusions(&results, raw).uncited_count, 0);
}

fn statuses(ocr: OcrOutcome, key: &str, extract: ExtractOutcome) -> (Vec<(String, String)>, String) {
    let d = pipeline_decision(&ocr, key, extract).unwrap();
    (d.stages.into_iter().map(|s| (s.name, s.status)).collect(), d.extraction_method)
}

#[test]
fn stages_run_in_order_with_their_statuses() {
    let (stages, method) = statuses(OcrOutcome::Analyzed, "auto", ExtractOutcome::Extracted);
    let expected: Vec<(String, String)> = [
        ("ingest", "complete"),
        ("ocr", "complete"),
        ("extract", "complete"),
        ("evaluate", "complete"),
    ]
    .iter()
    .map(|(a, b)| (a.to_string(), b.to_string()))
    .collect();
    assert_eq!(stages, expected);
    assert_eq!(method, "content_understanding");
}

#[test]
fn ocr_falls_back_without_failing_the_run() {
    let d = pipeline_decision(&OcrOutcome::NotConfigured, "life", ExtractOutcome::Extracted).unwrap();
    assert_eq!(d.extraction_method, "none");
    assert_eq!(d.stages[1].status, "skipped");
    assert_eq!(d.stages[1].note, Some(StageNote::Reason("content understanding not configured".to_string())));

    let token = OcrOutcome::TokenFailed(CuError::AuthFailed("expired".to_string()));
    let d = pipeline_decision(&token, "life", ExtractOutcome::Extracted).unwrap();
    assert_eq!(d.extraction_method, "fallback_no_token");
    assert_eq!(d.stages[1].status, "failed");
    assert_eq!(
        d.stages[1].note,
        Some(StageNote::Error("CU auth token acquisition failed: expired".to_string()))
    );

    let analysis = OcrOutcome::AnalysisFailed(CuError::AnalysisFailed("400".to_string()));
    let d = pipeline_decision(&analysis, "life", ExtractOutcome::Extracted).unwrap();
    assert_eq!(d.extraction_method, "fallback_cu_error");
    assert_eq!(d.stages[1].status, "failed_fallback");
    assert_eq!(d.stages[1].note, Some(StageNote::Error("CU analysis failed: 400".to_string())));
    assert_eq!(d.stages[2].status, "complete");
}

#[test]
fn an_unknown_schema_key_skips_extraction() {
    let d = pipeline_decision(&OcrOutcome::Analyzed, "cyber", ExtractOutcome::Skipped).unwrap();
    assert_eq!(d.stages[2].name, "extract");
    assert_eq!(d.stages[2].status, "skipped");
    assert_eq!(d.stages[2].note, Some(StageNote::Reason("no schema for 'cyber'".to_string())));
    assert_eq!(d.stages[3].status, "complete");
}

#[test]
fn only_a_failed_extraction_against_a_known_schema_fails_the_run() {
    let r = pipeline_decision(
        &OcrOutcome::Analyzed,
        "marine",
        ExtractOutcome::Failed(StructuredExtractionError::NoContent),
    );
    assert_eq!(r.unwrap_err(), PipelineError::ExtractionFailed(StructuredExtractionError::NoContent));

    let r = pipeline_decision(
        &OcrOutcome::NotConfigured,
        "cyber",
        ExtractOutcome::Failed(StructuredExtractionError::NoContent),
    );
    assert_eq!(r.unwrap().stages[2].status, "skipped");
}

#[test]
fn nothing_retrieved_needs_no_model() {
    let r = kb_result_without_passages(&Vec::new()).unwrap();
    assert!(r.conclusions.is_empty());
    assert_eq!(r.retrieved_count, 0);
    assert_eq!(r.uncited_count, 0);
    assert!(kb_result_without_passages(&vec![passage("a")]).is_none());
}
