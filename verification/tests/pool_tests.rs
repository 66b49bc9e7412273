use office_to_png_core::converter::{assemble_batch, ConversionOutcome};
use office_to_png_core::pool::job_output_dir;
use office_to_png_core::{
    ConversionError, FailedFile, FileResult, InstanceHealth, LibreOfficeInstance,
    LibreOfficePool, PoolConfig, PoolHealth, ToolOutcome,
};

// LibreOfficeInstance tests

#[test]
fn test_instance_increment_docs() {
    let mut instance = LibreOfficeInstance::new(0);
    assert_eq!(instance.docs_processed, 0);

    assert_eq!(instance.increment_docs(), 1);
    assert_eq!(instance.docs_processed, 1);

    assert_eq!(instance.increment_docs(), 2);
    assert_eq!(instance.docs_processed, 2);
}

#[test]
fn test_instance_needs_recycling() {
    let mut instance = LibreOfficeInstance::new(0);

    // Fresh instance doesn't need recycling
    assert!(!instance.needs_recycling(100));

    // Simulate processing docs
    for _ in 0..100 {
        instance.increment_docs();
    }

    // Now should need recycling
    assert!(instance.needs_recycling(100));
    assert!(instance.needs_recycling(50)); // exceeded 50
    assert!(!instance.needs_recycling(200)); // not reached 200
}

#[test]
fn test_instance_busy_flag() {
    let mut instance = LibreOfficeInstance::new(0);

    assert!(!instance.is_busy);

    instance.set_busy(true);
    assert!(instance.is_busy);

    instance.set_busy(false);
    assert!(!instance.is_busy);
}

// PoolHealth tests

#[test]
fn test_pool_health_struct() {
    let health = PoolHealth {
        pool_size: 4,
        total_processed: 100,
        is_shutdown: false,
        instances: vec![
            InstanceHealth {
                id: 0,
                docs_processed: 25,
                is_busy: false,
                needs_recycling: false,
            },
            InstanceHealth {
                id: 1,
                docs_processed: 25,
                is_busy: true,
                needs_recycling: false,
            },
        ],
    };

    assert_eq!(health.pool_size, 4);
    assert_eq!(health.total_processed, 100);
    assert!(!health.is_shutdown);
    assert_eq!(health.instances.len(), 2);
}

#[test]
fn test_instance_health_clone() {
    let health = InstanceHealth {
        id: 5,
        docs_processed: 42,
        is_busy: true,
        needs_recycling: false,
    };

    let cloned = health.clone();
    assert_eq!(cloned.id, 5);
    assert_eq!(cloned.docs_processed, 42);
    assert!(cloned.is_busy);
    assert!(!cloned.needs_recycling);
}

// Pool state machine tests

#[test]
fn test_pool_new_rejects_zero_size() {
    let mut config = PoolConfig::default();
    config.pool_size = 0;
    match LibreOfficePool::new(config) {
        Err(ConversionError::InvalidConfig(_)) => (),
        _ => panic!("Expected InvalidConfig"),
    }
}

#[test]
fn test_pool_new_starts_idle() {
    let pool = LibreOfficePool::new(PoolConfig::with_pool_size(3)).unwrap();
    let health = pool.health();
    assert_eq!(health.pool_size, 3);
    assert_eq!(health.total_processed, 0);
    assert!(!health.is_shutdown);
    assert_eq!(health.instances.len(), 3);
    for (i, inst) in health.instances.iter().enumerate() {
        assert_eq!(inst.id, i);
        assert_eq!(inst.docs_processed, 0);
        assert!(!inst.is_busy);
        assert!(!inst.needs_recycling);
    }
}

#[test]
fn test_pool_admission_bound() {
    // Admission bound: a pool of 2 grants at most 2 permits at once.
    let mut pool = LibreOfficePool::new(PoolConfig::with_pool_size(2)).unwrap();
    assert_eq!(pool.try_acquire_permit().unwrap(), true);
    assert_eq!(pool.try_acquire_permit().unwrap(), true);
    // No permit is free: a third job must wait.
    assert_eq!(pool.try_acquire_permit().unwrap(), false);

    let idx0 = pool.checkout_instance().unwrap();
    let idx1 = pool.checkout_instance().unwrap();
    assert_ne!(idx0, idx1);

    // Releasing one instance frees one permit.
    pool.release_instance(idx0, true);
    assert_eq!(pool.try_acquire_permit().unwrap(), true);
}

#[test]
fn test_pool_instance_exclusivity() {
    // A claimed instance is never handed out again until released.
    let mut pool = LibreOfficePool::new(PoolConfig::with_pool_size(3)).unwrap();
    assert!(pool.try_acquire_permit().unwrap());
    assert!(pool.try_acquire_permit().unwrap());
    assert!(pool.try_acquire_permit().unwrap());
    let a = pool.checkout_instance().unwrap();
    let b = pool.checkout_instance().unwrap();
    let c = pool.checkout_instance().unwrap();
    assert_ne!(a, b);
    assert_ne!(a, c);
    assert_ne!(b, c);
    match pool.checkout_instance() {
        Err(ConversionError::PoolExhausted { pool_size }) => assert_eq!(pool_size, 3),
        _ => panic!("Expected PoolExhausted"),
    }
    pool.release_instance(b, false);
    // The freed instance is the only idle one, so it is handed out again.
    assert_eq!(pool.checkout_instance().unwrap(), b);
}

#[test]
fn test_pool_release_updates_counters() {
    let mut pool = LibreOfficePool::new(PoolConfig::with_pool_size(1)).unwrap();
    assert!(pool.try_acquire_permit().unwrap());
    let idx = pool.checkout_instance().unwrap();
    pool.release_instance(idx, true);
    assert_eq!(pool.total_processed(), 1);
    let health = pool.health();
    assert_eq!(health.instances[idx].docs_processed, 1);
    assert!(!health.instances[idx].is_busy);

    // A failed job releases the instance without counting a document.
    assert!(pool.try_acquire_permit().unwrap());
    let idx = pool.checkout_instance().unwrap();
    pool.release_instance(idx, false);
    assert_eq!(pool.total_processed(), 1);
}

#[test]
fn test_pool_recycling_flag_is_monotonic() {
    let config = PoolConfig::with_pool_size(1).max_docs_per_instance(2);
    let mut pool = LibreOfficePool::new(config).unwrap();
    for round in 0..3 {
        assert!(pool.try_acquire_permit().unwrap());
        let idx = pool.checkout_instance().unwrap();
        pool.release_instance(idx, true);
        let health = pool.health();
        let flagged = health.instances[0].needs_recycling;
        assert_eq!(flagged, round + 1 >= 2);
    }
    // The flag never resets once set.
    assert!(pool.health().instances[0].needs_recycling);
}

#[test]
fn test_pool_shutdown_rejects_requests() {
    let mut pool = LibreOfficePool::new(PoolConfig::with_pool_size(2)).unwrap();
    pool.shutdown();
    assert!(pool.health().is_shutdown);
    match pool.check_request("ok.docx", true) {
        Err(ConversionError::PoolShutdown) => (),
        _ => panic!("Expected PoolShutdown"),
    }
    match pool.try_acquire_permit() {
        Err(ConversionError::PoolShutdown) => (),
        _ => panic!("Expected PoolShutdown"),
    }
}

#[test]
fn test_pool_check_request_errors() {
    let pool = LibreOfficePool::new(PoolConfig::with_pool_size(1)).unwrap();
    assert!(pool.check_request("report.docx", true).is_ok());
    assert!(pool.check_request("report.XLSX", true).is_ok());
    match pool.check_request("/missing/file.docx", false) {
        Err(ConversionError::InputNotFound(p)) => assert_eq!(p, "/missing/file.docx"),
        _ => panic!("Expected InputNotFound"),
    }
    match pool.check_request("notes.pdf", true) {
        Err(ConversionError::UnsupportedFormat { extension }) => assert_eq!(extension, "pdf"),
        _ => panic!("Expected UnsupportedFormat"),
    }
    match pool.check_request("no_extension", true) {
        Err(ConversionError::UnsupportedFormat { extension }) => assert_eq!(extension, ""),
        _ => panic!("Expected UnsupportedFormat"),
    }
}

#[test]
fn test_pool_resolve_tool_result() {
    let config = PoolConfig::with_pool_size(1).conversion_timeout(5);
    let pool = LibreOfficePool::new(config).unwrap();

    match pool.resolve_tool_result("slow.docx", ToolOutcome::TimedOut, None) {
        Err(ConversionError::Timeout { path, timeout_secs }) => {
            assert_eq!(path, "slow.docx");
            assert_eq!(timeout_secs, 5);
        },
        _ => panic!("Expected Timeout"),
    }

    match pool.resolve_tool_result(
        "a.docx",
        ToolOutcome::SpawnFailed("no such binary".to_string()),
        None,
    ) {
        Err(ConversionError::ProcessStartFailed(m)) => assert_eq!(m, "no such binary"),
        _ => panic!("Expected ProcessStartFailed"),
    }

    match pool.resolve_tool_result(
        "b.docx",
        ToolOutcome::Exited { success: false, stderr: "bad document".to_string() },
        None,
    ) {
        Err(ConversionError::ConversionFailed { path, message }) => {
            assert_eq!(path, "b.docx");
            assert_eq!(message, "bad document");
        },
        _ => panic!("Expected ConversionFailed"),
    }

    match pool.resolve_tool_result(
        "c.docx",
        ToolOutcome::Exited { success: true, stderr: String::new() },
        None,
    ) {
        Err(ConversionError::ConversionFailed { message, .. }) => {
            assert_eq!(message, "PDF output file not found");
        },
        _ => panic!("Expected ConversionFailed"),
    }

    let produced = "/tmp/job/c.pdf".to_string();
    match pool.resolve_tool_result(
        "c.docx",
        ToolOutcome::Exited { success: true, stderr: String::new() },
        Some(produced.clone()),
    ) {
        Ok(p) => assert_eq!(p, produced),
        _ => panic!("Expected the produced intermediate file"),
    }
}

#[test]
fn test_pool_timeout_frees_instance() {
    // A timed-out job surfaces a typed timeout error and its instance
    // becomes idle again.
    let config = PoolConfig::with_pool_size(1).conversion_timeout(5);
    let mut pool = LibreOfficePool::new(config).unwrap();
    assert!(pool.try_acquire_permit().unwrap());
    let idx = pool.checkout_instance().unwrap();
    let err = pool
        .resolve_tool_result("slow.docx", ToolOutcome::TimedOut, None)
        .unwrap_err();
    assert!(matches!(err, ConversionError::Timeout { .. }));
    pool.release_instance(idx, false);
    let health = pool.health();
    assert!(!health.instances[idx].is_busy);
    // The pool accepts the next job at once.
    assert!(pool.try_acquire_permit().unwrap());
    assert_eq!(pool.checkout_instance().unwrap(), idx);
}

#[test]
fn test_pool_expected_pdf_path() {
    let pool = LibreOfficePool::new(PoolConfig::with_pool_size(1)).unwrap();
    assert_eq!(
        pool.expected_pdf_path("/tmp/job1", "docs/report.docx"),
        "/tmp/job1/report.pdf"
    );
    assert_eq!(pool.expected_pdf_path("/tmp/job2", ""), "/tmp/job2/output.pdf");
}

// End-to-end batch scenario over the pool's decision core: pool size 2,
// timeout 5 s, two valid requests and one request pointing at a missing
// file.

#[test]
fn test_batch_scenario_with_missing_input() {
    let config = PoolConfig::with_pool_size(2).conversion_timeout(5);
    let mut pool = LibreOfficePool::new(config).unwrap();

    let requests = [
        ("a.docx", true),
        ("/missing/nope.docx", false),
        ("b.docx", true),
    ];
    let mut outcomes: Vec<ConversionOutcome> = Vec::new();

    for (path, exists) in requests {
        match pool.check_request(path, exists) {
            Err(e) => {
                outcomes.push(ConversionOutcome::Failure(FailedFile {
                    input_path: path.to_string(),
                    error: e.message(),
                }));
                continue;
            },
            Ok(()) => (),
        }
        assert!(pool.try_acquire_permit().unwrap());
        let idx = pool.checkout_instance().unwrap();
        let produced = pool.expected_pdf_path("/tmp/out", path);
        let result = pool.resolve_tool_result(
            path,
            ToolOutcome::Exited { success: true, stderr: String::new() },
            Some(produced),
        );
        pool.release_instance(idx, result.is_ok());
        match result {
            Ok(pdf) => outcomes.push(ConversionOutcome::Success(FileResult {
                input_path: path.to_string(),
                output_paths: vec![pdf],
                page_count: 1,
                duration_ms: 1,
            })),
            Err(e) => outcomes.push(ConversionOutcome::Failure(FailedFile {
                input_path: path.to_string(),
                error: e.message(),
            })),
        }
    }

    let batch = assemble_batch(outcomes, 10);
    assert_eq!(batch.successful.len(), 2);
    assert_eq!(batch.failed.len(), 1);
    assert!(batch.failed[0].error.contains("/missing/nope.docx"));
    assert_eq!(pool.total_processed(), 2);
    // No shared state was corrupted: every instance is idle again.
    for inst in pool.health().instances {
        assert!(!inst.is_busy);
    }
}


#[test]
fn test_job_output_dir_is_fresh_per_job() {
    let a = job_output_dir("/tmp/base");
    let b = job_output_dir("/tmp/base");
    assert!(a.starts_with("/tmp/base/"));
    assert_eq!(a.len(), "/tmp/base".len() + 37);
    // Two jobs get distinct directories.
    assert_ne!(a, b);
}
