use singularity_llm::progress::DownloadProgressHandler;
use singularity_llm::progress::ProgressReport;

#[test]
fn first_update_reports_and_counters_accumulate() {
    let mut h = DownloadProgressHandler::new();
    h.init(100, "model.gguf");
    let r = h.update(5);
    assert_eq!(r, Some(ProgressReport { downloaded: 0, total: 100 }));
    let r2 = h.update(7);
    assert_eq!(r2, None);
}

#[test]
fn every_thousandth_update_reports() {
    let mut h = DownloadProgressHandler::new();
    h.init(2000, "model.gguf");
    let mut reports = Vec::new();
    for _ in 0..1001 {
        if let Some(p) = h.update(1) {
            reports.push(p);
        }
    }
    assert_eq!(reports.len(), 2, "updates 0 and 1000 report");
    assert_eq!(reports[0], ProgressReport { downloaded: 0, total: 2000 });
    assert_eq!(reports[1], ProgressReport { downloaded: 1000, total: 2000 });
}

#[test]
fn init_resets_the_counters() {
    let mut h = DownloadProgressHandler::new();
    h.init(10, "a");
    h.update(4);
    h.update(4);
    h.init(20, "b");
    let r = h.update(1);
    assert_eq!(r, Some(ProgressReport { downloaded: 0, total: 20 }));
}

#[test]
fn finish_fires_once() {
    let mut h = DownloadProgressHandler::new();
    assert!(h.finish());
    assert!(!h.finish());
    assert!(!h.finish());
}
