use enki::cache::{
    cached_hash_matches, calculate_hash, get_cache_dir, shader_cache_files, struct_cache_file_name, CompileAction,
    CompileEvent, CompileJob, CompileStage,
};

fn job() -> CompileJob {
    let (job, first) = CompileJob::new("blur".to_string(), "abc123".to_string(), "\"/c/blur.slang\"".to_string());
    assert!(matches!(first, CompileAction::EnsureCacheDir));
    job
}

fn finished_err(a: CompileAction) -> String {
    match a {
        CompileAction::Finish(Err(m)) => m,
        _ => panic!("expected a failure"),
    }
}

#[test]
fn cache_dir_is_target_enki_cache_beside_the_manifest_dir() {
    let dir = get_cache_dir("/work/project/enki_macros");
    let expected = std::path::Path::new("/work/project").join("target").join("enki_cache");
    assert_eq!(dir, expected.to_string_lossy());
    assert!(dir.ends_with("enki_cache"));
    assert!(dir.starts_with("/work/project"));
}

#[test]
fn cache_file_names() {
    assert_eq!(struct_cache_file_name("Particle"), "Particle.json");
    let f = shader_cache_files("blur");
    assert_eq!(f.source, "blur.slang");
    assert_eq!(f.spirv, "blur.spv");
    assert_eq!(f.hash, "blur.hash");
}

#[test]
fn hash_is_lower_hex_and_stable_within_a_run() {
    let a = calculate_hash("void main() {}");
    let b = calculate_hash("void main() {}");
    let c = calculate_hash("void main() { }");
    assert_eq!(a, b);
    assert_ne!(a, c);
    assert!(!a.is_empty() && a.len() <= 16);
    assert!(a.chars().all(|ch| ch.is_ascii_digit() || ('a'..='f').contains(&ch)));
}

#[test]
fn cached_hash_ignores_surrounding_white_space() {
    assert!(cached_hash_matches("abc123\n", "abc123"));
    assert!(cached_hash_matches("  abc123  ", "abc123"));
    assert!(!cached_hash_matches("abc124", "abc123"));
    assert!(!cached_hash_matches("", "abc123"));
}

#[test]
fn cache_hit_returns_cached_spirv() {
    let mut j = job();
    assert!(matches!(j.step(CompileEvent::DirReady(Ok(()))), CompileAction::ReadCachedHash));
    assert!(matches!(j.step(CompileEvent::CachedHash(Some("abc123\n".to_string()))), CompileAction::ReadCachedSpirv));
    match j.step(CompileEvent::CachedSpirv(Some(vec![1, 2, 3]))) {
        CompileAction::Finish(Ok(b)) => assert_eq!(b, vec![1, 2, 3]),
        _ => panic!("expected the cached bytes"),
    }
    assert!(matches!(j.stage, CompileStage::Done));
}

#[test]
fn cache_miss_compiles_then_records_the_hash() {
    let mut j = job();
    j.step(CompileEvent::DirReady(Ok(())));
    assert!(matches!(j.step(CompileEvent::CachedHash(Some("old".to_string()))), CompileAction::WriteSource));
    assert!(matches!(j.step(CompileEvent::SourceWritten(Ok(()))), CompileAction::RunCompiler));
    assert!(matches!(j.step(CompileEvent::CompilerRan(Ok((true, String::new())))), CompileAction::ReadCompiledSpirv));
    assert!(matches!(j.step(CompileEvent::CompiledSpirv(Ok(vec![9, 9]))), CompileAction::WriteHash));
    match j.step(CompileEvent::HashWritten(Ok(()))) {
        CompileAction::Finish(Ok(b)) => assert_eq!(b, vec![9, 9]),
        _ => panic!("expected the compiled bytes"),
    }
}

#[test]
fn unreadable_cached_spirv_falls_back_to_compiling() {
    let mut j = job();
    j.step(CompileEvent::DirReady(Ok(())));
    j.step(CompileEvent::CachedHash(Some("abc123".to_string())));
    assert!(matches!(j.step(CompileEvent::CachedSpirv(None)), CompileAction::WriteSource));
    let mut k = job();
    k.step(CompileEvent::DirReady(Ok(())));
    assert!(matches!(k.step(CompileEvent::CachedHash(None)), CompileAction::WriteSource));
}

#[test]
fn each_failure_has_its_message() {
    let mut j = job();
    assert_eq!(
        finished_err(j.step(CompileEvent::DirReady(Err("denied".to_string())))),
        "[Compiler] Failed to create cache directory: denied"
    );
    let mut j = job();
    j.step(CompileEvent::DirReady(Ok(())));
    j.step(CompileEvent::CachedHash(None));
    assert_eq!(
        finished_err(j.step(CompileEvent::SourceWritten(Err("disk full".to_string())))),
        "[Compiler] Failed to write Slang file atomically: disk full"
    );
    let mut j = job();
    j.step(CompileEvent::DirReady(Ok(())));
    j.step(CompileEvent::CachedHash(None));
    j.step(CompileEvent::SourceWritten(Ok(())));
    assert_eq!(
        finished_err(j.step(CompileEvent::CompilerRan(Err("not found".to_string())))),
        "[Compiler] Failed to execute 'slangc' binary. Ensure Vulkan SDK is installed and 'slangc' is in your system PATH.\nSystem Error Details: not found"
    );
    let mut j = job();
    j.step(CompileEvent::DirReady(Ok(())));
    j.step(CompileEvent::CachedHash(None));
    j.step(CompileEvent::SourceWritten(Ok(())));
    assert_eq!(
        finished_err(j.step(CompileEvent::CompilerRan(Ok((false, "error 1".to_string()))))),
        "[Compiler] Slang compilation failed for function 'blur'.\nSlangc Output Compiler Error:\nerror 1\nHelp: You can inspect and debug the generated shader code at: \"/c/blur.slang\""
    );
    let mut j = job();
    j.step(CompileEvent::DirReady(Ok(())));
    j.step(CompileEvent::CachedHash(None));
    j.step(CompileEvent::SourceWritten(Ok(())));
    j.step(CompileEvent::CompilerRan(Ok((true, String::new()))));
    assert_eq!(
        finished_err(j.step(CompileEvent::CompiledSpirv(Err("gone".to_string())))),
        "[Compiler] Failed to read compiled SPIR-V binary from disk: gone"
    );
    let mut j = job();
    j.step(CompileEvent::DirReady(Ok(())));
    j.step(CompileEvent::CachedHash(None));
    j.step(CompileEvent::SourceWritten(Ok(())));
    j.step(CompileEvent::CompilerRan(Ok((true, String::new()))));
    j.step(CompileEvent::CompiledSpirv(Ok(vec![1])));
    assert_eq!(
        finished_err(j.step(CompileEvent::HashWritten(Err("ro".to_string())))),
        "[Compiler] Failed to write shader hash file atomically: ro"
    );
}

#[test]
fn a_finished_job_stays_finished() {
    let mut j = job();
    j.step(CompileEvent::DirReady(Err("x".to_string())));
    assert!(matches!(j.step(CompileEvent::DirReady(Ok(()))), CompileAction::Finish(Err(_))));
    assert!(matches!(j.stage, CompileStage::Done));
}

#[test]
fn recorded_hash_of_unchanged_source_is_a_cache_hit() {
    let source = "[shader(\"compute\")] void main() {}";
    let recorded = calculate_hash(source);
    let (mut j, _) = CompileJob::new("k".to_string(), calculate_hash(source), "\"/c/k.slang\"".to_string());
    assert!(matches!(j.step(CompileEvent::DirReady(Ok(()))), CompileAction::ReadCachedHash));
    assert!(matches!(j.step(CompileEvent::CachedHash(Some(recorded))), CompileAction::ReadCachedSpirv));
    assert!(matches!(j.stage, CompileStage::ReadCached));
}
