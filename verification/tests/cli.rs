use clap::builder::{PossibleValuesParser, RangedU64ValueParser};
use clap::{Arg, ArgAction, ArgMatches, Command};
use odoo_18_quotations_to_19::batch_update::{BatchUpdateArg, BatchUpdateOdooVersion};
use odoo_18_quotations_to_19::transfert::res_partner_18_fields_to_19_properties::{
    ResPartner18FieldsTo19PropertiesArg, X19PropertyName,
};
use odoo_18_quotations_to_19::{Cli, Commands, DEFAULT_CONF_PATH};

fn positive() -> RangedU64ValueParser<u32> {
    RangedU64ValueParser::<u32>::new().range(1..)
}

/// The command line of the migration tool, written with clap's builder.
fn cli_command() -> Command {
    Command::new("odoo-18-quotations-to-19")
        .version("0.1.0")
        .propagate_version(true)
        .subcommand_required(true)
        .arg(Arg::new("limit").short('l').value_parser(positive()))
        .arg(
            Arg::new("configuration_file")
                .short('c')
                .long("configuration-file")
                .help("Configuration file"),
        )
        .subcommand(Command::new("sale-order"))
        .subcommand(Command::new("crm-lead"))
        .subcommand(Command::new("account-move"))
        .subcommand(
            Command::new("batch-update")
                .arg(Arg::new("model").required(true))
                .arg(Arg::new("field").required(true))
                .arg(Arg::new("value").required(true))
                .arg(
                    Arg::new("ids")
                        .long("ids")
                        .action(ArgAction::Append)
                        .value_parser(RangedU64ValueParser::<u64>::new()),
                )
                .arg(Arg::new("limit").long("limit").short('l').value_parser(RangedU64ValueParser::<u32>::new()))
                .arg(
                    Arg::new("odoo_version")
                        .long("odoo-version")
                        .value_parser(PossibleValuesParser::new(["odoo19", "odoo18"])),
                ),
        )
        .subcommand(Command::new("some-debug"))
        .subcommand(
            Command::new("res-partner18-fields-to19-properties")
                .arg(Arg::new("x_18_field").required(true))
                .arg(Arg::new("x_19_property_name").required(true))
                .arg(Arg::new("batch_limit").long("batch-limit").short('b').value_parser(positive())),
        )
}

fn to_cli(m: &ArgMatches) -> Cli {
    let command = match m.subcommand() {
        Some(("sale-order", _)) => Commands::SaleOrder,
        Some(("crm-lead", _)) => Commands::CrmLead,
        Some(("account-move", _)) => Commands::AccountMove,
        Some(("some-debug", _)) => Commands::SomeDebug,
        Some(("batch-update", s)) => Commands::BatchUpdate(BatchUpdateArg {
            model: s.get_one::<String>("model").unwrap().clone(),
            field: s.get_one::<String>("field").unwrap().clone(),
            value: s.get_one::<String>("value").unwrap().clone(),
            ids: s.get_many::<u64>("ids").map(|v| v.copied().collect()).unwrap_or_default(),
            limit: s.get_one::<u32>("limit").copied(),
            odoo_version: s.get_one::<String>("odoo_version").map(|v| {
                if v == "odoo18" { BatchUpdateOdooVersion::Odoo18 } else { BatchUpdateOdooVersion::Odoo19 }
            }),
        }),
        Some(("res-partner18-fields-to19-properties", s)) => {
            Commands::ResPartner18FieldsTo19Properties(ResPartner18FieldsTo19PropertiesArg {
                x_18_field: s.get_one::<String>("x_18_field").unwrap().clone(),
                x_19_property_name: s
                    .get_one::<String>("x_19_property_name")
                    .unwrap()
                    .parse::<X19PropertyName>()
                    .unwrap(),
                batch_limit: s.get_one::<u32>("batch_limit").copied(),
            })
        }
        other => panic!("unexpected subcommand {:?}", other.map(|o| o.0)),
    };
    Cli {
        limit: m.get_one::<u32>("limit").copied(),
        configuration_file: m.get_one::<String>("configuration_file").cloned(),
        command,
    }
}

#[test]
fn verify_cli() {
    cli_command().debug_assert();
}

#[test]
fn cli_defaults() {
    let m = cli_command().try_get_matches_from(["prog", "sale-order"]).unwrap();
    let cli = to_cli(&m);
    assert_eq!(cli.chunk_limit(), 30);
    assert_eq!(cli.configuration_path(), DEFAULT_CONF_PATH);
    assert!(matches!(cli.command, Commands::SaleOrder));
}

#[test]
fn cli_given_values() {
    let m = cli_command()
        .try_get_matches_from(["prog", "-l", "5", "-c", "prod.toml", "batch-update", "res.partner", "comment", "x", "--ids", "3", "--ids", "4"])
        .unwrap();
    let cli = to_cli(&m);
    assert_eq!(cli.chunk_limit(), 5);
    assert_eq!(cli.configuration_path(), "prod.toml");
    match cli.command {
        Commands::BatchUpdate(a) => {
            assert_eq!(a.ids, vec![3, 4]);
            assert_eq!(a.limit(), 30);
        }
        _ => panic!("expected a batch update"),
    }
    assert!(cli_command().try_get_matches_from(["prog", "-l", "0", "crm-lead"]).is_err());
}

#[test]
fn cli_property_argument() {
    let m = cli_command()
        .try_get_matches_from(["prog", "res-partner18-fields-to19-properties", "x_hobby", "string:(Hobby)"])
        .unwrap();
    match to_cli(&m).command {
        Commands::ResPartner18FieldsTo19Properties(a) => {
            assert_eq!(a.x_19_property_name, X19PropertyName::String("Hobby".into()));
            assert_eq!(a.batch_limit(), 30);
        }
        _ => panic!("expected the property copy"),
    }
}
