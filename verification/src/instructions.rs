pub mod update_voter_weight_record;
