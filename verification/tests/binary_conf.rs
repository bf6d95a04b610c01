use binconf::ConfigLocation::{Cache, Config, Cwd, LocalData};
use binconf::{
    finish_load, get_configuration_path, ConfigError, ConfigLocation, ConfigType, LoadStep, Loaded,
    HASH_BYTE_LENGTH,
};
use serde::de::DeserializeOwned;
use serde::{Deserialize, Deserializer, Serialize, Serializer};
use std::collections::HashMap;

#[derive(Default, PartialEq, Debug, Clone)]
struct TestConfig {
    test: String,
    test_vec: Vec<u8>,
}

impl Serialize for TestConfig {
    fn serialize<S: Serializer>(&self, serializer: S) -> Result<S::Ok, S::Error> {
        (&self.test, &self.test_vec).serialize(serializer)
    }
}

impl<'de> Deserialize<'de> for TestConfig {
    fn deserialize<D: Deserializer<'de>>(deserializer: D) -> Result<Self, D::Error> {
        let (test, test_vec) = <(String, Vec<u8>)>::deserialize(deserializer)?;
        Ok(TestConfig { test, test_vec })
    }
}

#[derive(Default, Clone, Debug)]
struct TestConfig2 {
    strings: String,
    vecs: Vec<u8>,
    num_1: i32,
    num_2: i32,
}

impl Serialize for TestConfig2 {
    fn serialize<S: Serializer>(&self, serializer: S) -> Result<S::Ok, S::Error> {
        (&self.strings, &self.vecs, self.num_1, self.num_2).serialize(serializer)
    }
}

impl<'de> Deserialize<'de> for TestConfig2 {
    fn deserialize<D: Deserializer<'de>>(deserializer: D) -> Result<Self, D::Error> {
        let (strings, vecs, num_1, num_2) =
            <(String, Vec<u8>, i32, i32)>::deserialize(deserializer)?;
        Ok(TestConfig2 { strings, vecs, num_1, num_2 })
    }
}

/// Why a load or a store failed.
#[derive(Debug)]
enum Failure {
    Config(ConfigError),
    Bincode(bincode::Error),
}

/// Files by path, in place of a file system.
#[derive(Default)]
struct Disk {
    files: HashMap<String, Vec<u8>>,
}

impl Disk {
    fn path(app_name: &str, config_name: Option<&str>, location: &ConfigLocation) -> String {
        let base = match location {
            Config => dirs::config_dir(),
            Cache => dirs::cache_dir(),
            LocalData => dirs::data_local_dir(),
            Cwd => Some(std::path::PathBuf::from("/srv/work")),
        };
        let base_text = base.as_ref().map(|dir| dir.to_str().unwrap());
        get_configuration_path(app_name, config_name, &ConfigType::Bin, location, base_text)
            .unwrap()
    }

    fn save_default<T: Default + Serialize>(&mut self, path: String) -> Result<T, Failure> {
        let default_config = T::default();
        let payload = bincode::serialize(&default_config).map_err(Failure::Bincode)?;
        self.files.insert(path, binconf::store_bin(&payload));
        Ok(default_config)
    }

    fn load<T: Default + Serialize + DeserializeOwned>(
        &mut self,
        app_name: &str,
        config_name: Option<&str>,
        location: ConfigLocation,
        reset_conf_on_err: bool,
        skip_hash_check: bool,
    ) -> Result<T, Failure> {
        let path = Disk::path(app_name, config_name, &location);
        let decoded = {
            let file = self.files.get(&path).map(|data| data.as_slice());
            let step = if skip_hash_check {
                binconf::load_bin_skip_check(file, reset_conf_on_err)
            } else {
                binconf::load_bin(file, reset_conf_on_err)
            };
            match step.map_err(Failure::Config)? {
                LoadStep::WriteDefault => None,
                LoadStep::Decode(payload) => Some(bincode::deserialize_from::<_, T>(payload)),
            }
        };
        match decoded {
            None => self.save_default(path),
            Some(decoded) => match finish_load(decoded, reset_conf_on_err) {
                Ok(Loaded::Value(config)) => Ok(config),
                Ok(Loaded::WriteDefault) => self.save_default(path),
                Err(error) => Err(Failure::Bincode(error)),
            },
        }
    }

    fn load_bin<T: Default + Serialize + DeserializeOwned>(
        &mut self,
        app_name: &str,
        config_name: Option<&str>,
        location: ConfigLocation,
        reset_conf_on_err: bool,
    ) -> Result<T, Failure> {
        self.load(app_name, config_name, location, reset_conf_on_err, false)
    }

    fn load_bin_skip_check<T: Default + Serialize + DeserializeOwned>(
        &mut self,
        app_name: &str,
        config_name: Option<&str>,
        location: ConfigLocation,
        reset_conf_on_err: bool,
    ) -> Result<T, Failure> {
        self.load(app_name, config_name, location, reset_conf_on_err, true)
    }

    fn store_bin<T: Serialize>(
        &mut self,
        app_name: &str,
        config_name: Option<&str>,
        location: ConfigLocation,
        data: T,
    ) -> Result<(), Failure> {
        let path = Disk::path(app_name, config_name, &location);
        let payload = bincode::serialize(&data).map_err(Failure::Bincode)?;
        self.files.insert(path, binconf::store_bin(&payload));
        Ok(())
    }
}

#[test]
fn read_default_config_bin() {
    let mut disk = Disk::default();
    let config = disk
        .load_bin::<String>("test-binconf-read_default_config-string-bin", None, Config, false)
        .unwrap();
    assert_eq!(config, String::from(""));

    let test_config = TestConfig {
        test: String::from("test"),
        test_vec: vec![1, 2, 3, 4, 5],
    };

    let config: TestConfig = disk
        .load_bin("test-binconf-read_default_config-struct-bin", None, Config, false)
        .unwrap();
    assert_eq!(config, TestConfig::default());

    disk.store_bin("test-binconf-read_default_config-struct-bin", None, Config, &test_config)
        .unwrap();
    let config: TestConfig = disk
        .load_bin("test-binconf-read_default_config-struct-bin", None, Config, false)
        .unwrap();
    assert_eq!(config, test_config);
}

#[test]
fn config_with_name_bin() {
    let mut disk = Disk::default();
    let config = disk
        .load_bin::<String>(
            "test-binconf-config_with_name-string-bin",
            Some("test-config.bin"),
            Config,
            false,
        )
        .unwrap();
    assert_eq!(config, String::from(""));

    let test_config = TestConfig {
        test: String::from("test"),
        test_vec: vec![1, 2, 3, 4, 5],
    };

    let config: TestConfig = disk
        .load_bin(
            "test-binconf-config_with_name-struct-bin",
            Some("test-config.bin"),
            Config,
            false,
        )
        .unwrap();
    assert_eq!(config, TestConfig::default());

    disk.store_bin(
        "test-binconf-config_with_name-struct-bin",
        Some("test-config.bin"),
        Config,
        &test_config,
    )
    .unwrap();
    let config: TestConfig = disk
        .load_bin(
            "test-binconf-config_with_name-struct-bin",
            Some("test-config.bin"),
            Config,
            false,
        )
        .unwrap();
    assert_eq!(config, test_config);
}

#[test]
fn returns_error_on_invalid_config_bin() {
    let mut disk = Disk::default();
    let data = TestConfig {
        test: String::from("test"),
        test_vec: vec![1, 2],
    };

    disk.store_bin("test-binconf-returns_error_on_invalid_config-bin", None, Config, &data)
        .unwrap();
    let config = disk.load_bin::<TestConfig2>(
        "test-binconf-returns_error_on_invalid_config-bin",
        None,
        Config,
        false,
    );

    assert!(config.is_err());
    assert!(matches!(config, Err(Failure::Bincode(_))));
}

#[test]
fn save_config_user_config_bin() {
    let mut disk = Disk::default();
    let data = TestConfig {
        test: String::from("test"),
        test_vec: vec![1, 2, 3, 4, 5],
    };

    disk.store_bin("test-binconf-save_config_user_config-bin", None, Config, &data).unwrap();
    let config: TestConfig = disk
        .load_bin("test-binconf-save_config_user_config-bin", None, Config, false)
        .unwrap();
    assert_eq!(config, data);
}

#[test]
fn save_config_user_cache_bin() {
    let mut disk = Disk::default();
    let data = TestConfig {
        test: String::from("test"),
        test_vec: vec![1, 2, 3, 4, 5],
    };

    disk.store_bin("test-binconf-save_config_user_cache-bin", None, Cache, &data).unwrap();
    let config: TestConfig = disk
        .load_bin("test-binconf-save_config_user_cache-bin", None, Cache, false)
        .unwrap();
    assert_eq!(config, data);
}

#[test]
fn save_config_user_local_data_bin() {
    let mut disk = Disk::default();
    let data = TestConfig {
        test: String::from("test"),
        test_vec: vec![1, 2, 3, 4, 5],
    };

    disk.store_bin("test-binconf-save_config_user_local_data-bin", None, LocalData, &data)
        .unwrap();
    let config: TestConfig = disk
        .load_bin("test-binconf-save_config_user_local_data-bin", None, LocalData, false)
        .unwrap();
    assert_eq!(config, data);
}

#[test]
fn save_config_user_cwd_bin() {
    let mut disk = Disk::default();
    let data = TestConfig {
        test: String::from("test"),
        test_vec: vec![1, 2, 3, 4, 5],
    };

    disk.store_bin("test-binconf-save_config_user_cwd-bin", None, Cwd, &data).unwrap();
    let config: TestConfig =
        disk.load_bin("test-binconf-save_config_user_cwd-bin", None, Cwd, false).unwrap();
    assert_eq!(config, data);
}

#[test]
fn load_config_fallback() {
    let mut disk = Disk::default();
    let data = String::from("test of corrupted data");

    disk.store_bin("test-binconf-load_config_fallback-bin", None, Config, &data).unwrap();

    assert_eq!(
        disk.load_bin::<String>("test-binconf-load_config_fallback-bin", None, Config, false)
            .unwrap(),
        data
    );

    // Corrupt data
    let path = Disk::path("test-binconf-load_config_fallback-bin", None, &Config);
    let mut new_data = disk.files.get(&path).unwrap().clone();

    if let Some(last) = new_data.last_mut() {
        // Change last byte to char `o`
        *last = 0x6F;
    }

    disk.files.insert(path.clone(), new_data.clone());

    // Read corrupted data without fallback (should fail)
    let failed =
        disk.load_bin::<String>("test-binconf-load_config_fallback-bin", None, Config, false);
    assert!(failed.is_err());
    assert!(matches!(failed, Err(Failure::Config(ConfigError::HashMismatch))));

    // Read corrupted data with fallback (should succeed)
    let corrupted_data = disk
        .load_bin_skip_check::<String>("test-binconf-load_config_fallback-bin", None, Config, true)
        .unwrap();

    assert_eq!(corrupted_data, String::from_utf8_lossy(&new_data[24..]));
    assert_eq!(corrupted_data, "test of corrupted dato");
    // The fallback read leaves the file as it found it.
    assert_eq!(disk.files.get(&path), Some(&new_data));
}

#[test]
fn stored_record_and_its_recovery() {
    let mut disk = Disk::default();
    let value = TestConfig { test: String::from("a"), test_vec: vec![1, 2, 3] };
    let path = Disk::path("X", None, &Config);

    disk.store_bin("X", None, Config, &value).unwrap();
    let serialized = bincode::serialize(&value).unwrap();
    assert_eq!(serialized.len(), 8 + 1 + 8 + 3);
    assert_eq!(disk.files[&path].len(), HASH_BYTE_LENGTH + serialized.len());
    assert_eq!(disk.files[&path].len(), 36);
    assert_eq!(&disk.files[&path][HASH_BYTE_LENGTH..], &serialized[..]);

    let loaded: TestConfig = disk.load_bin("X", None, Config, false).unwrap();
    assert_eq!(loaded, value);

    let mut damaged = disk.files[&path].clone();
    *damaged.last_mut().unwrap() ^= 0xFF;
    disk.files.insert(path.clone(), damaged.clone());

    let refused = disk.load_bin::<TestConfig>("X", None, Config, false);
    assert!(matches!(refused, Err(Failure::Config(ConfigError::HashMismatch))));
    assert_eq!(disk.files[&path], damaged);

    let reset: TestConfig = disk.load_bin("X", None, Config, true).unwrap();
    assert_eq!(reset, TestConfig { test: String::new(), test_vec: vec![] });
    let default_record = binconf::store_bin(&bincode::serialize(&TestConfig::default()).unwrap());
    assert_eq!(disk.files[&path], default_record);
    assert_eq!(default_record.len(), HASH_BYTE_LENGTH + 16);

    let again: TestConfig = disk.load_bin("X", None, Config, false).unwrap();
    assert_eq!(again, TestConfig::default());
    assert_eq!(disk.files[&path], default_record);
}

#[test]
fn first_load_leaves_a_record_that_loads_again() {
    let mut disk = Disk::default();
    let path = Disk::path("fresh", None, &Cache);
    assert!(disk.files.get(&path).is_none());

    let first: TestConfig = disk.load_bin("fresh", None, Cache, false).unwrap();
    assert_eq!(first, TestConfig::default());
    let written = disk.files[&path].clone();
    assert!(binconf::split(&written).is_ok());

    let second: TestConfig = disk.load_bin("fresh", None, Cache, false).unwrap();
    assert_eq!(second, TestConfig::default());
    assert_eq!(disk.files[&path], written);
}

#[test]
fn short_file_is_corrupted_hash_sector() {
    for len in 0..HASH_BYTE_LENGTH {
        let mut disk = Disk::default();
        let path = Disk::path("short", None, &LocalData);
        let truncated = vec![0xABu8; len];
        disk.files.insert(path.clone(), truncated.clone());

        let refused = disk.load_bin::<TestConfig>("short", None, LocalData, false);
        assert!(matches!(refused, Err(Failure::Config(ConfigError::CorruptedHashSector))));
        let refused = disk.load_bin_skip_check::<TestConfig>("short", None, LocalData, false);
        assert!(matches!(refused, Err(Failure::Config(ConfigError::CorruptedHashSector))));
        assert_eq!(disk.files[&path], truncated);

        let reset: TestConfig = disk.load_bin("short", None, LocalData, true).unwrap();
        assert_eq!(reset, TestConfig::default());
        let default_record =
            binconf::store_bin(&bincode::serialize(&TestConfig::default()).unwrap());
        assert_eq!(disk.files[&path], default_record);
    }
}

#[test]
fn second_store_leaves_only_the_second_value() {
    let mut disk = Disk::default();
    let path = Disk::path("twice", None, &Config);
    let first = TestConfig { test: String::from("a long first value"), test_vec: vec![9; 40] };
    let second = TestConfig { test: String::from("b"), test_vec: vec![7] };

    disk.store_bin("twice", None, Config, &first).unwrap();
    disk.store_bin("twice", None, Config, &second).unwrap();

    let serialized = bincode::serialize(&second).unwrap();
    assert_eq!(disk.files[&path].len(), HASH_BYTE_LENGTH + serialized.len());
    let loaded: TestConfig = disk.load_bin("twice", None, Config, false).unwrap();
    assert_eq!(loaded, second);
}

#[test]
fn undecodable_payload_with_reset_gives_the_default() {
    let mut disk = Disk::default();
    let path = Disk::path("shape", None, &Config);
    let data = TestConfig { test: String::from("test"), test_vec: vec![1, 2] };
    disk.store_bin("shape", None, Config, &data).unwrap();

    let config: TestConfig2 = disk.load_bin("shape", None, Config, true).unwrap();
    assert_eq!(config.strings, "");
    assert_eq!(config.vecs, Vec::<u8>::new());
    assert_eq!((config.num_1, config.num_2), (0, 0));
    let default_record = binconf::store_bin(&bincode::serialize(&TestConfig2::default()).unwrap());
    assert_eq!(disk.files[&path], default_record);
}
