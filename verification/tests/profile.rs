use lossless_optimiser::classify::FileKind;
use lossless_optimiser::errors::ConfigError;
use lossless_optimiser::profile::Invocation;
use lossless_optimiser::profile::ToolKind;
use lossless_optimiser::profile::ect_arg_tokens;
use lossless_optimiser::profile::get_ect_options;
use lossless_optimiser::profile::get_jpegtran_options;
use lossless_optimiser::profile::get_oxipng_options;
use lossless_optimiser::profile::jpegtran_arg_tokens;
use lossless_optimiser::profile::oxipng_arg_tokens;
use lossless_optimiser::profile::resolve;

#[test]
fn oxipng_options_every_level() {
    let expected = [
        "-p -b --fix -o 0 ",
        "-p -b --fix -o 1 ",
        "-p -b --fix --zc 9 --zs 0-3 -f 0,5 --nz ",
        "-p -b --fix -o 2 ",
        "-p -b --fix -o 3 ",
        "-p -b --fix --zc 9 --zs 0-3 -f 0-5 -a ",
        "-p -b --fix -o 5 ",
        "-p -b --fix --zc 3-9 --zs 0-3 -f 0-5 -a ",
        "-p -b --fix --zc 1-9 --zs 0-3 -f 0-5 -a ",
        "-p -b --fix --zc 1-9 --zs 0-3 -f 0-5 -a ",
    ];
    for level in 0u8..=9 {
        assert_eq!(get_oxipng_options(level).unwrap(), expected[level as usize]);
    }
}

#[test]
fn ect_options_every_level() {
    let prefix = "--strict -progressive --mt-deflate --reuse -keep ";
    let strengths = ["-1 ", "-1 ", "-2 ", "-3 ", "-4 ", "-5 ", "-6 ", "-7 ", "-8 ", "-9 "];
    for level in 0u8..=9 {
        assert_eq!(
            get_ect_options(level).unwrap(),
            format!("{}{}", prefix, strengths[level as usize])
        );
    }
}

#[test]
fn jpegtran_options_every_level() {
    let prefix = "-copy all -optimize -progressive -maxmemory ";
    let budgets = [
        "262144 ", "395264 ", "524288 ", "786432 ", "1048576 ", "1572864 ", "1835008 ",
        "2097152 ", "2097152 ", "2139095 ",
    ];
    for level in 0u8..=9 {
        assert_eq!(
            get_jpegtran_options(level).unwrap(),
            format!("{}{}", prefix, budgets[level as usize])
        );
    }
}

#[test]
fn options_fail_above_nine() {
    for level in 10u8..=255 {
        assert_eq!(get_oxipng_options(level), Err(ConfigError::InvalidOptLevel));
        assert_eq!(get_ect_options(level), Err(ConfigError::InvalidOptLevel));
        assert_eq!(get_jpegtran_options(level), Err(ConfigError::InvalidOptLevel));
    }
}

#[test]
fn resolve_nonempty_and_deterministic_for_all_valid_levels() {
    for level in 0u8..=9 {
        for kind in [FileKind::Png, FileKind::Jpeg] {
            for verbose in [false, true] {
                let once = resolve(level, kind, verbose).unwrap();
                let twice = resolve(level, kind, verbose).unwrap();
                assert!(!once.is_empty());
                assert_eq!(once.len(), twice.len());
                for (a, b) in once.iter().zip(twice.iter()) {
                    assert_eq!(a.tool, b.tool);
                    assert_eq!(a.args, b.args);
                    assert!(!a.args.is_empty());
                }
            }
        }
    }
}

#[test]
fn resolve_fails_above_nine() {
    assert!(matches!(
        resolve(10, FileKind::Png, false),
        Err(ConfigError::InvalidOptLevel)
    ));
    assert!(matches!(
        resolve(255, FileKind::Jpeg, true),
        Err(ConfigError::InvalidOptLevel)
    ));
}

#[test]
fn resolve_orders_tools_primary_then_recompressor() {
    let png: Vec<Invocation> = resolve(5, FileKind::Png, false).unwrap();
    assert_eq!(png.len(), 2);
    assert_eq!(png[0].tool, ToolKind::PngOptimizer);
    assert_eq!(png[1].tool, ToolKind::EntropyRecompressor);

    let jpeg: Vec<Invocation> = resolve(5, FileKind::Jpeg, false).unwrap();
    assert_eq!(jpeg.len(), 2);
    assert_eq!(jpeg[0].tool, ToolKind::JpegTransform);
    assert_eq!(jpeg[1].tool, ToolKind::EntropyRecompressor);
}

#[test]
fn verbose_appends_exactly_one_token_to_primary_lists() {
    for level in 0u8..=9 {
        let plain = oxipng_arg_tokens(level, false);
        let verbose = oxipng_arg_tokens(level, true);
        assert_eq!(verbose.len(), plain.len() + 1);
        assert_eq!(&verbose[..plain.len()], &plain[..]);
        assert_eq!(verbose.last().unwrap().as_str(), "-v");

        let plain = jpegtran_arg_tokens(level, false);
        let verbose = jpegtran_arg_tokens(level, true);
        assert_eq!(verbose.len(), plain.len() + 1);
        assert_eq!(&verbose[..plain.len()], &plain[..]);
        assert_eq!(verbose.last().unwrap().as_str(), "-verbose");
    }
}

#[test]
fn verbose_appends_nothing_to_recompressor_list() {
    for level in 0u8..=9 {
        let with = resolve(level, FileKind::Png, true).unwrap();
        let without = resolve(level, FileKind::Png, false).unwrap();
        assert_eq!(with[1].args, without[1].args);
        assert_eq!(with[1].args, ect_arg_tokens(level));
    }
}

#[test]
fn ect_strength_tokens_match_levels() {
    assert_eq!(ect_arg_tokens(0).last().unwrap().as_str(), "-1");
    assert_eq!(ect_arg_tokens(1).last().unwrap().as_str(), "-1");
    assert_eq!(ect_arg_tokens(2).last().unwrap().as_str(), "-2");
    assert_eq!(ect_arg_tokens(9).last().unwrap().as_str(), "-9");
}
