use serde_json::Value;
use smart_folder_zen::error::{AppError, ErrorType};
use smart_folder_zen::host::{Effect, Reply, Step};
use smart_folder_zen::settings::{
    AppSettings, DateFormat, Loaded, SettingsDocument, SettingsSave, StoredSettings,
};

fn sample() -> AppSettings {
    AppSettings {
        folder_path: "/tmp/X".to_string(),
        date_format: DateFormat::MMDD,
        auto_start: false,
        auto_create_on_startup: true,
    }
}

fn document(date_format: &str) -> SettingsDocument {
    SettingsDocument {
        folder_path: "/home/alice/Desktop".to_string(),
        date_format: date_format.to_string(),
        auto_start: true,
        auto_create_on_startup: false,
    }
}

/// Feeds the replies to a saving, and returns what it asked for and how it
/// ended, if it ended.
fn save_with(
    first: Step<SettingsSave, Result<(), AppError>>,
    replies: &[Reply],
) -> (Vec<Effect>, Option<Result<(), AppError>>) {
    let mut asked = Vec::new();
    let mut step = first;
    let mut replies = replies.iter();
    loop {
        match step {
            Step::Done(result) => return (asked, Some(result)),
            Step::Ask(save, effect) => {
                asked.push(effect);
                match replies.next() {
                    Some(reply) => step = save.resume(reply),
                    None => return (asked, None),
                }
            }
        }
    }
}

#[test]
fn formats_have_their_words() {
    assert_eq!(DateFormat::MMDD.name(), "MMDD");
    assert_eq!(DateFormat::YYYYMMDD.name(), "YYYYMMDD");
    assert_eq!(DateFormat::from_name("MMDD"), Some(DateFormat::MMDD));
    assert_eq!(DateFormat::from_name("YYYYMMDD"), Some(DateFormat::YYYYMMDD));
    for format in [DateFormat::MMDD, DateFormat::YYYYMMDD] {
        assert_eq!(DateFormat::from_name(format.name()), Some(format));
    }
}

#[test]
fn other_words_are_no_format() {
    for word in ["", "mmdd", "MMDD ", " MMDD", "YYYY-MM-DD", "YYYYMMD", "YYYYMMDDD", "DDMM", "%m%d"] {
        assert_eq!(DateFormat::from_name(word), None, "{word:?}");
    }
}

#[test]
fn the_default_record_goes_to_the_desktop() {
    let settings = AppSettings::with_desktop(Some("/home/alice/Desktop".to_string()));
    assert_eq!(settings.folder_path, "/home/alice/Desktop");
    assert_eq!(settings.date_format, DateFormat::YYYYMMDD);
    assert!(settings.auto_start);
    assert!(settings.auto_create_on_startup);
}

#[test]
fn the_default_record_falls_back_to_the_current_directory() {
    let settings = AppSettings::with_desktop(None);
    assert_eq!(settings.folder_path, ".");
    assert_eq!(settings.date_format, DateFormat::YYYYMMDD);
    assert!(settings.auto_start);
    assert!(settings.auto_create_on_startup);
}

#[test]
fn default_is_a_default_record_for_some_desktop() {
    let settings = AppSettings::default();
    assert_eq!(settings.date_format, DateFormat::YYYYMMDD);
    assert!(settings.auto_start);
    assert!(settings.auto_create_on_startup);
    assert!(!settings.folder_path.is_empty());
    let desktop = if settings.folder_path == "." { None } else { Some(settings.folder_path.clone()) };
    assert_eq!(settings, AppSettings::with_desktop(desktop));
}

#[test]
fn a_record_becomes_a_flat_document() {
    let document = sample().to_document();
    assert_eq!(document.folder_path, "/tmp/X");
    assert_eq!(document.date_format, "MMDD");
    assert!(!document.auto_start);
    assert!(document.auto_create_on_startup);

    let other = AppSettings { date_format: DateFormat::YYYYMMDD, ..sample() };
    assert_eq!(other.to_document().date_format, "YYYYMMDD");
}

#[test]
fn a_document_is_read_back_as_its_record() {
    for folder_path in ["", ".", "/tmp/X", "C:\\Users\\Alice\\Desktop", "/数据/文件夹", "a b\"c\n"] {
        for date_format in [DateFormat::MMDD, DateFormat::YYYYMMDD] {
            for auto_start in [false, true] {
                for auto_create_on_startup in [false, true] {
                    let record = AppSettings {
                        folder_path: folder_path.to_string(),
                        date_format,
                        auto_start,
                        auto_create_on_startup,
                    };
                    assert_eq!(AppSettings::from_document(&record.to_document()), Ok(record));
                }
            }
        }
    }
}

#[test]
fn the_default_record_survives_persisting() {
    for desktop in [None, Some("/home/alice/Desktop".to_string())] {
        let fresh = AppSettings::with_desktop(desktop);
        let stored = StoredSettings::Found(fresh.to_document());
        assert_eq!(AppSettings::load(stored), Ok(Loaded::Stored(fresh)));
    }
}

#[test]
fn a_document_with_an_unknown_format_is_a_configuration_error() {
    let error = AppSettings::from_document(&document("DDMMYYYY")).unwrap_err();
    assert_eq!(error.error_type, ErrorType::Configuration);
    assert_eq!(error.message, "配置文件格式错误");
    assert!(AppSettings::from_document(&document("")).is_err());
    assert!(AppSettings::from_document(&document("yyyymmdd")).is_err());
}

#[test]
fn loading_reads_what_was_found() {
    let loaded = AppSettings::load(StoredSettings::Found(document("MMDD"))).unwrap();
    assert_eq!(
        loaded,
        Loaded::Stored(AppSettings {
            folder_path: "/home/alice/Desktop".to_string(),
            date_format: DateFormat::MMDD,
            auto_start: true,
            auto_create_on_startup: false,
        })
    );
}

#[test]
fn loading_makes_the_default_record_when_nothing_was_persisted() {
    match AppSettings::load(StoredSettings::Absent) {
        Ok(Loaded::Fresh(settings)) => {
            assert_eq!(settings.date_format, DateFormat::YYYYMMDD);
            assert!(settings.auto_start);
            assert!(settings.auto_create_on_startup);
        }
        other => panic!("expected a fresh record, got {other:?}"),
    }
}

#[test]
fn loading_fails_with_a_configuration_error() {
    let cases = [
        (StoredSettings::Unlocated, "无法获取配置目录"),
        (StoredSettings::Unreadable, "无法读取配置文件"),
        (StoredSettings::Malformed, "配置文件格式错误"),
        (StoredSettings::Found(document("nonsense")), "配置文件格式错误"),
    ];
    for (stored, message) in cases {
        assert_eq!(AppSettings::load(stored), Err(AppError::configuration(message)));
    }
}

#[test]
fn saving_validates_then_persists() {
    let settings = sample();
    let yes = Reply::yes();
    let (asked, result) = save_with(settings.save(), &[yes.clone(), yes.clone(), yes.clone(), Reply::no(), yes]);
    assert_eq!(result, Some(Ok(())));
    assert_eq!(asked.len(), 5);
    assert_eq!(asked[0], Effect::CheckExists("/tmp/X".to_string()));
    assert_eq!(asked[1], Effect::CheckIsDir("/tmp/X".to_string()));
    assert!(matches!(&asked[2], Effect::WriteEmptyFile(path) if path.ends_with(".test_write_permission")));
    assert!(matches!(&asked[3], Effect::RemoveFile(path) if path.ends_with(".test_write_permission")));
    assert_eq!(asked[4], Effect::PersistSettings(settings.to_document()));
}

#[test]
fn saving_does_not_persist_a_record_with_a_bad_base_path() {
    let settings = sample();
    let yes = Reply::yes();

    let (asked, result) = save_with(settings.save(), &[Reply::no()]);
    assert_eq!(result, Some(Err(AppError::invalid_path("指定的路径不存在"))));
    assert_eq!(asked, vec![Effect::CheckExists("/tmp/X".to_string())]);

    let (asked, result) = save_with(settings.save(), &[yes.clone(), Reply::no()]);
    assert_eq!(result, Some(Err(AppError::invalid_path("指定的路径不是目录"))));
    assert_eq!(asked.len(), 2);

    let (asked, result) = save_with(settings.save(), &[yes.clone(), yes, Reply::failed("read-only")]);
    assert_eq!(result, Some(Err(AppError::permission_denied("没有写入权限"))));
    assert_eq!(asked.len(), 3);
    assert!(asked.iter().all(|effect| !matches!(effect, Effect::PersistSettings(_))));
}

#[test]
fn saving_reports_what_the_host_could_not_persist() {
    let yes = Reply::yes();
    let replies = [yes.clone(), yes.clone(), yes.clone(), yes, Reply::failed("无法保存配置文件")];
    let (_, result) = save_with(sample().save(), &replies);
    assert_eq!(result, Some(Err(AppError::configuration("无法保存配置文件"))));
}

fn to_json(document: &SettingsDocument) -> String {
    let mut entries = serde_json::Map::new();
    entries.insert("folder_path".to_string(), Value::String(document.folder_path.clone()));
    entries.insert("date_format".to_string(), Value::String(document.date_format.clone()));
    entries.insert("auto_start".to_string(), Value::Bool(document.auto_start));
    entries.insert(
        "auto_create_on_startup".to_string(),
        Value::Bool(document.auto_create_on_startup),
    );
    serde_json::to_string_pretty(&Value::Object(entries)).unwrap()
}

fn from_json(text: &str) -> Option<SettingsDocument> {
    let value: Value = serde_json::from_str(text).ok()?;
    Some(SettingsDocument {
        folder_path: value.get("folder_path")?.as_str()?.to_string(),
        date_format: value.get("date_format")?.as_str()?.to_string(),
        auto_start: value.get("auto_start")?.as_bool()?,
        auto_create_on_startup: value.get("auto_create_on_startup")?.as_bool()?,
    })
}

#[test]
fn a_record_survives_its_json_text() {
    for folder_path in ["/tmp/X", "C:\\Users\\Alice", "/数据/文件夹", "quote\" and\nnewline"] {
        for date_format in [DateFormat::MMDD, DateFormat::YYYYMMDD] {
            let record = AppSettings {
                folder_path: folder_path.to_string(),
                date_format,
                auto_start: true,
                auto_create_on_startup: false,
            };
            let text = to_json(&record.to_document());
            let read = from_json(&text).unwrap();
            assert_eq!(read, record.to_document());
            assert_eq!(AppSettings::load(StoredSettings::Found(read)), Ok(Loaded::Stored(record)));
        }
    }
}

#[test]
fn the_persisted_text_is_read_as_its_record() {
    let text = r#"{
  "folder_path": "/home/alice/Desktop",
  "date_format": "YYYYMMDD",
  "auto_start": true,
  "auto_create_on_startup": true
}"#;
    let loaded = AppSettings::load(StoredSettings::Found(from_json(text).unwrap()));
    assert_eq!(
        loaded,
        Ok(Loaded::Stored(AppSettings::with_desktop(Some("/home/alice/Desktop".to_string()))))
    );

    let other = r#"{"folder_path": "/x", "date_format": "DDMM", "auto_start": true, "auto_create_on_startup": true}"#;
    assert_eq!(
        AppSettings::load(StoredSettings::Found(from_json(other).unwrap())),
        Err(AppError::configuration("配置文件格式错误"))
    );
}
