use office_to_png_core::converter::{assemble_batch, ConversionOutcome};
use office_to_png_core::{
    BatchResult, ConversionProgress, ConversionRequest, ConversionStage, ConverterBuilder,
    ConverterConfig, ConverterStats, FailedFile, FileResult,
};

// ConverterBuilder tests

#[test]
fn test_builder_default() {
    let builder = ConverterBuilder::new();

    // Check defaults match ConverterConfig::default()
    let default_config = ConverterConfig::default();
    assert_eq!(builder.config.pool.pool_size, default_config.pool.pool_size);
    assert_eq!(builder.config.render.dpi, default_config.render.dpi);
}

#[test]
fn test_builder_pool_size() {
    let builder = ConverterBuilder::new().pool_size(8);
    assert_eq!(builder.config.pool.pool_size, 8);
}

#[test]
fn test_builder_dpi() {
    let builder = ConverterBuilder::new().dpi(300);
    assert_eq!(builder.config.render.dpi, 300);
}

#[test]
fn test_builder_render_threads() {
    let builder = ConverterBuilder::new().render_threads(4);
    assert_eq!(builder.config.render.render_threads, 4);
}

#[test]
fn test_builder_conversion_timeout() {
    let builder = ConverterBuilder::new().conversion_timeout(120);
    assert_eq!(builder.config.pool.conversion_timeout_secs, 120);
}

#[test]
fn test_builder_soffice_path() {
    let path = "/custom/path/to/soffice".to_string();
    let builder = ConverterBuilder::new().soffice_path(path.clone());
    assert_eq!(builder.config.pool.soffice_path, Some(path));
}

#[test]
fn test_builder_temp_dir() {
    let path = "/custom/temp".to_string();
    let builder = ConverterBuilder::new().temp_dir(path.clone());
    assert_eq!(builder.config.pool.temp_dir, Some(path));
}

#[test]
fn test_builder_chaining() {
    let builder = ConverterBuilder::new()
        .pool_size(4)
        .dpi(150)
        .render_threads(2)
        .conversion_timeout(90);

    assert_eq!(builder.config.pool.pool_size, 4);
    assert_eq!(builder.config.render.dpi, 150);
    assert_eq!(builder.config.render.render_threads, 2);
    assert_eq!(builder.config.pool.conversion_timeout_secs, 90);
}

#[test]
fn test_builder_default_trait() {
    let builder: ConverterBuilder = Default::default();
    assert_eq!(builder.config.pool.pool_size, ConverterConfig::default().pool.pool_size);
}

// ConverterStats tests

#[test]
fn test_converter_stats_struct() {
    let stats = ConverterStats {
        total_documents_processed: 42,
        pool_size: 4,
        dpi: 150,
    };

    assert_eq!(stats.total_documents_processed, 42);
    assert_eq!(stats.pool_size, 4);
    assert_eq!(stats.dpi, 150);
}

#[test]
fn test_converter_stats_clone() {
    let stats = ConverterStats {
        total_documents_processed: 100,
        pool_size: 8,
        dpi: 300,
    };

    let cloned = stats.clone();
    assert_eq!(cloned.total_documents_processed, 100);
    assert_eq!(cloned.pool_size, 8);
    assert_eq!(cloned.dpi, 300);
}

#[test]
fn test_converter_stats_debug() {
    let stats = ConverterStats {
        total_documents_processed: 50,
        pool_size: 2,
        dpi: 72,
    };

    let debug_str = format!("{:?}", stats);
    assert!(debug_str.contains("50"));
    assert!(debug_str.contains("2"));
    assert!(debug_str.contains("72"));
}

// ConversionRequest tests

#[test]
fn test_conversion_request_get_output_prefix() {
    let request = ConversionRequest {
        input_path: "/path/to/document.docx".to_string(),
        output_dir: "/output".to_string(),
        output_prefix: Some("custom_prefix".to_string()),
        dpi_override: None,
    };

    assert_eq!(request.get_output_prefix(), "custom_prefix");
}

#[test]
fn converter_test_conversion_request_get_output_prefix_from_filename() {
    let request = ConversionRequest {
        input_path: "/path/to/my_document.docx".to_string(),
        output_dir: "/output".to_string(),
        output_prefix: None,
        dpi_override: None,
    };

    assert_eq!(request.get_output_prefix(), "my_document");
}

#[test]
fn test_conversion_request_dpi_override() {
    let request = ConversionRequest {
        input_path: "/path/to/document.docx".to_string(),
        output_dir: "/output".to_string(),
        output_prefix: None,
        dpi_override: Some(300),
    };

    assert_eq!(request.dpi_override, Some(300));
}

// FileResult tests

#[test]
fn test_file_result_struct() {
    let result = FileResult {
        input_path: "/input/doc.docx".to_string(),
        output_paths: vec![
            "/output/doc_page_0001.png".to_string(),
            "/output/doc_page_0002.png".to_string(),
        ],
        page_count: 2,
        duration_ms: 500,
    };

    assert_eq!(result.page_count, 2);
    assert_eq!(result.output_paths.len(), 2);
    assert_eq!(result.duration_ms, 500);
}

// BatchResult tests

#[test]
fn test_batch_result_empty() {
    let result = BatchResult {
        successful: vec![],
        failed: vec![],
        total_duration_ms: 0,
        total_pages: 0,
    };

    assert!(result.successful.is_empty());
    assert!(result.failed.is_empty());
    assert_eq!(result.total_pages, 0);
}

#[test]
fn test_batch_result_with_data() {
    let result = BatchResult {
        successful: vec![
            FileResult {
                input_path: "/input/doc1.docx".to_string(),
                output_paths: vec!["/output/doc1_page_0001.png".to_string()],
                page_count: 1,
                duration_ms: 100,
            },
        ],
        failed: vec![
            FailedFile {
                input_path: "/input/bad.docx".to_string(),
                error: "Conversion failed".to_string(),
            },
        ],
        total_duration_ms: 1000,
        total_pages: 1,
    };

    assert_eq!(result.successful.len(), 1);
    assert_eq!(result.failed.len(), 1);
    assert_eq!(result.total_pages, 1);
}

// ConversionProgress tests

#[test]
fn test_conversion_progress_struct() {
    let progress = ConversionProgress {
        file_index: 2,
        total_files: 10,
        current_file: "document.docx".to_string(),
        pages_completed: 5,
        total_pages: Some(10),
        stage: ConversionStage::RenderingPages,
    };

    assert_eq!(progress.file_index, 2);
    assert_eq!(progress.total_files, 10);
    assert_eq!(progress.pages_completed, 5);
    assert_eq!(progress.total_pages, Some(10));
}

#[test]
fn converter_test_conversion_stage_variants() {
    // Test all stage variants exist
    let stages = [
        ConversionStage::ConvertingToPdf,
        ConversionStage::RenderingPages,
        ConversionStage::Completed,
        ConversionStage::Failed,
    ];

    for stage in &stages {
        let _ = format!("{:?}", stage); // Should not panic
    }
}

// Batch assembly tests

fn success(path: &str, pages: usize) -> ConversionOutcome {
    ConversionOutcome::Success(FileResult {
        input_path: path.to_string(),
        output_paths: vec![],
        page_count: pages,
        duration_ms: 10,
    })
}

fn failure(path: &str, error: &str) -> ConversionOutcome {
    ConversionOutcome::Failure(FailedFile {
        input_path: path.to_string(),
        error: error.to_string(),
    })
}

#[test]
fn test_assemble_batch_counts_and_totals() {
    let outcomes = vec![
        success("a.docx", 3),
        failure("b.docx", "missing"),
        success("c.docx", 4),
    ];
    let batch = assemble_batch(outcomes, 250);
    assert_eq!(batch.successful.len(), 2);
    assert_eq!(batch.failed.len(), 1);
    assert_eq!(batch.successful.len() + batch.failed.len(), 3);
    assert_eq!(batch.total_pages, 7);
    assert_eq!(batch.total_duration_ms, 250);
    assert_eq!(batch.failed[0].input_path, "b.docx");
    assert_eq!(batch.failed[0].error, "missing");
}

#[test]
fn test_assemble_batch_empty() {
    let batch = assemble_batch(vec![], 5);
    assert!(batch.successful.is_empty());
    assert!(batch.failed.is_empty());
    assert_eq!(batch.total_pages, 0);
}

#[test]
fn test_assemble_batch_preserves_input_order() {
    let names = ["one.docx", "two.docx", "three.docx", "four.docx", "five.docx"];
    let mut outcomes = Vec::new();
    for (i, name) in names.iter().enumerate() {
        if i == 2 {
            outcomes.push(failure(name, "bad"));
        } else {
            outcomes.push(success(name, 1));
        }
    }
    let batch = assemble_batch(outcomes, 0);
    let successful: Vec<&str> = batch.successful.iter().map(|f| f.input_path.as_str()).collect();
    assert_eq!(successful, vec!["one.docx", "two.docx", "four.docx", "five.docx"]);
    assert_eq!(batch.failed[0].input_path, "three.docx");
}

#[test]
fn test_assemble_batch_all_failures() {
    let outcomes = vec![failure("x.docx", "no such file"), failure("y.docx", "timed out")];
    let batch = assemble_batch(outcomes, 1);
    assert!(batch.successful.is_empty());
    assert_eq!(batch.failed.len(), 2);
    assert_eq!(batch.total_pages, 0);
}

// Progress protocol tests

#[test]
fn test_progress_events_for_one_file() {
    let start = ConversionProgress::starting(0, 3, "report.docx");
    assert_eq!(start.stage, ConversionStage::ConvertingToPdf);
    assert_eq!(start.pages_completed, 0);
    assert_eq!(start.total_pages, None);
    assert_eq!(start.current_file, "report.docx");

    let page = ConversionProgress::page_rendered(0, 3, "report.docx", 2, 5);
    assert_eq!(page.stage, ConversionStage::RenderingPages);
    assert_eq!(page.pages_completed, 2);
    assert_eq!(page.total_pages, Some(5));

    let done = ConversionProgress::completed(0, 3, "report.docx", 5);
    assert_eq!(done.stage, ConversionStage::Completed);
    assert_eq!(done.pages_completed, 5);
    assert_eq!(done.total_pages, Some(5));

    let failed = ConversionProgress::failed(1, 3, "broken.docx");
    assert_eq!(failed.stage, ConversionStage::Failed);
    assert_eq!(failed.pages_completed, 0);
    assert_eq!(failed.total_pages, None);
}
