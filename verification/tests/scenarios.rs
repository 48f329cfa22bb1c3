use std::io::Cursor;
use toico::batch::{batch_succeeded, plan, Plan};
use toico::container::read_dimensions;
use toico::decode::{decode, InputFile};
use toico::job::{save_icon, EncodeOutcome, SaveStep};
use toico::names::output_name;
use toico::raster::SourceImage;
use toico::size::IconSize;

fn file_bytes(width: u32, height: u32, format: image::ImageFormat) -> Vec<u8> {
    let rgb = image::RgbImage::from_fn(width, height, |x, y| {
        image::Rgb([(x % 256) as u8, (y % 256) as u8, ((x * y) % 256) as u8])
    });
    let mut out = Cursor::new(Vec::new());
    image::DynamicImage::ImageRgb8(rgb).write_to(&mut out, format).unwrap();
    out.into_inner()
}

fn written(step: SaveStep) -> Vec<u8> {
    match step {
        SaveStep::Write(bytes) => bytes,
        other => panic!("expected a container to write, got {other:?}"),
    }
}

fn reread(bytes: Vec<u8>) -> SourceImage {
    decode("reread.ico", InputFile::Contents(bytes)).unwrap()
}

#[test]
fn photo_without_flags_becomes_a_64_pixel_icon() {
    let image = decode("photo.png", InputFile::Contents(file_bytes(500, 500, image::ImageFormat::Png)))
        .unwrap();
    let output = output_name("photo.png", None);
    let job = match plan(&output, IconSize::default(), false, false) {
        Plan::Single(job) => job,
        other => panic!("expected a single job, got {other:?}"),
    };
    assert_eq!(job.path, "photo.ico");
    let bytes = written(save_icon(&image, false, job.size, job.force));
    assert_eq!(read_dimensions(&bytes), Some((64, 64)));
    let icon = reread(bytes);
    assert_eq!((icon.width(), icon.height()), (64, 64));
    assert!(batch_succeeded(&[EncodeOutcome::from_write(Ok(()))]));
}

#[test]
fn logo_of_matching_size_is_kept_pixel_for_pixel() {
    let image = decode("logo.jpg", InputFile::Contents(file_bytes(64, 64, image::ImageFormat::Jpeg)))
        .unwrap();
    let output = output_name("logo.jpg", None);
    let job = match plan(&output, IconSize::new(64).unwrap(), false, false) {
        Plan::Single(job) => job,
        other => panic!("expected a single job, got {other:?}"),
    };
    assert_eq!(job.path, "logo.ico");
    let icon = reread(written(save_icon(&image, false, job.size, job.force)));
    assert_eq!((icon.width(), icon.height()), (64, 64));
    assert_eq!(icon.pixels(), image.pixels());
}

#[test]
fn all_sizes_fill_the_directory_with_eight_files() {
    let image = decode("art.bmp", InputFile::Contents(file_bytes(120, 90, image::ImageFormat::Bmp)))
        .unwrap();
    let output = output_name("art.bmp", Some("icons/app"));
    let (dir, jobs) = match plan(&output, IconSize::new(64).unwrap(), true, false) {
        Plan::Batch { dir, jobs } => (dir, jobs),
        other => panic!("expected a batch, got {other:?}"),
    };
    assert_eq!(dir, "icons/app_ico");
    let paths: Vec<&str> = jobs.iter().map(|job| job.path.as_str()).collect();
    assert_eq!(
        paths,
        vec![
            "icons/app_ico/app.ico",
            "icons/app_ico/app_16.ico",
            "icons/app_ico/app_24.ico",
            "icons/app_ico/app_32.ico",
            "icons/app_ico/app_48.ico",
            "icons/app_ico/app_64.ico",
            "icons/app_ico/app_128.ico",
            "icons/app_ico/app_256.ico",
        ]
    );
    let mut outcomes = Vec::new();
    for job in &jobs {
        let bytes = written(save_icon(&image, false, job.size, job.force));
        let side = job.size.get();
        assert_eq!(read_dimensions(&bytes), Some((side, side)));
        let icon = reread(bytes);
        assert_eq!((icon.width(), icon.height()), (side, side));
        outcomes.push(EncodeOutcome::from_write(Ok(())));
    }
    assert_eq!(outcomes.len(), 8);
    assert!(batch_succeeded(&outcomes));
}

#[test]
fn one_unwritable_path_leaves_the_other_seven_saved() {
    let image = decode("art.bmp", InputFile::Contents(file_bytes(40, 40, image::ImageFormat::Bmp)))
        .unwrap();
    let jobs = match plan("app", IconSize::new(64).unwrap(), true, true) {
        Plan::Batch { jobs, .. } => jobs,
        other => panic!("expected a batch, got {other:?}"),
    };
    let mut outcomes = Vec::new();
    for (at, job) in jobs.iter().enumerate() {
        let _bytes = written(save_icon(&image, false, job.size, job.force));
        let result = if at == 3 { Err("permission denied".to_string()) } else { Ok(()) };
        outcomes.push(EncodeOutcome::from_write(result));
    }
    assert_eq!(outcomes.iter().filter(|outcome| outcome.is_saved()).count(), 7);
    assert_eq!(outcomes[3], EncodeOutcome::Failed("permission denied".to_string()));
    assert!(!batch_succeeded(&outcomes));
}

#[test]
fn requested_name_with_extension_is_not_doubled() {
    let output = output_name("photo.png", Some("name.ico"));
    match plan(&output, IconSize::new(64).unwrap(), false, false) {
        Plan::Single(job) => assert_eq!(job.path, "name.ico"),
        other => panic!("expected a single job, got {other:?}"),
    }
}

#[test]
fn existing_file_without_force_fails_the_run_with_a_warning() {
    let image = decode("photo.png", InputFile::Contents(file_bytes(80, 80, image::ImageFormat::Png)))
        .unwrap();
    let output = output_name("photo.png", Some("out"));
    let job = match plan(&output, IconSize::new(64).unwrap(), false, false) {
        Plan::Single(job) => job,
        other => panic!("expected a single job, got {other:?}"),
    };
    assert_eq!(job.path, "out.ico");
    let outcome = match save_icon(&image, true, job.size, job.force) {
        SaveStep::Finished(outcome) => outcome,
        SaveStep::Write(_) => panic!("the existing file must stay untouched"),
    };
    assert_eq!(outcome, EncodeOutcome::SkippedExisting);
    assert_eq!(
        outcome.report(&job.path),
        Some("Warning: File 'out.ico' already exists. Use --force to overwrite.".to_string())
    );
    assert!(!batch_succeeded(&[outcome]));
}
