use ddsi_log_parser::ddsi_log_regex::DdsiLogRegex;


#[test]
fn dds_log_regex_handle_participants_self() {
    let dds_log_regex = DdsiLogRegex::new().unwrap();
    let handle_participants_self_sample =
        "2021-12-07T22:19:48+0000 1638915588.796443/      main: handleParticipantsSelf: found 428f812:7b:1 (self)";

    let matches = dds_log_regex.matches(handle_participants_self_sample);

    let capture = dds_log_regex.captures(0, handle_participants_self_sample).unwrap();

    assert!(matches.contains(&0));
    assert_eq!(capture.get("year").unwrap(), "2021");
    assert_eq!(capture.get("month").unwrap(), "12");
    assert_eq!(capture.get("day").unwrap(), "07");
    assert_eq!(capture.get("hour").unwrap(), "22");
    assert_eq!(capture.get("min").unwrap(), "19");
    assert_eq!(capture.get("sec").unwrap(), "48");
    assert_eq!(capture.get("timezone").unwrap(), "0000");
    assert_eq!(capture.get("timestamp").unwrap(), "1638915588.796443");
    assert_eq!(capture.get("system_id").unwrap(), "428f812:7b:1");
}

#[test]
fn dds_log_regex_writer_qos() {
    let dds_log_regex = DdsiLogRegex::new().unwrap();
    let write_qos_sample = "2021-12-07T22:19:48+0000 1638915588.898675/      main: WRITER 428f812:7b:1:2302 QOS={topic=d_sampleChain,type=durabilityModule2::d_sampleChain_s,presentation=1:0:0,partition={durabilityPartition},durability=0,durability_service=0.000000000:{0:1}:{-1:-1:-1},deadline=2147483647.999999999,latency_budget=0.000000000,liveliness=0:0.000000000,reliability=1:1.000000000,destination_order=0,history=1:1,resource_limits=1:-1:-1,transport_priority=0,lifespan=2147483647.999999999,ownership=0,ownership_strength=0,writer_data_lifecycle={1,2147483647.999999999,2147483647.999999999},relaxed_qos_matching=0,synchronous_endpoint=0}";

    let matches = dds_log_regex.matches(write_qos_sample);

    let capture = dds_log_regex.captures(1, write_qos_sample).unwrap();

    assert!(matches.contains(&1));
    assert_eq!(capture.get("year").unwrap(), "2021");
    assert_eq!(capture.get("month").unwrap(), "12");
    assert_eq!(capture.get("day").unwrap(), "07");
    assert_eq!(capture.get("hour").unwrap(), "22");
    assert_eq!(capture.get("min").unwrap(), "19");
    assert_eq!(capture.get("sec").unwrap(), "48");
    assert_eq!(capture.get("timezone").unwrap(), "0000");
    assert_eq!(capture.get("timestamp").unwrap(), "1638915588.898675");
    assert_eq!(capture.get("thread").unwrap(), "main");
    assert_eq!(capture.get("rw").unwrap(), "WRITER");
    assert_eq!(capture.get("system_id").unwrap(), "428f812:7b:1");
    assert_eq!(capture.get("rw_id").unwrap(), "2302");
    assert_eq!(capture.get("topic").unwrap(), "d_sampleChain");
    assert_eq!(capture.get("type").unwrap(), "durabilityModule2::d_sampleChain_s");
    assert_eq!(capture.get("presentation").unwrap(), "1:0:0");
    assert_eq!(capture.get("partition").unwrap(), "durabilityPartition");
    assert_eq!(capture.get("qos_durability").unwrap(), "0");
    assert_eq!(
        capture.get("durability_service").unwrap(),
        "0.000000000:{0:1}:{-1:-1:-1}"
    );
    assert_eq!(capture.get("deadline").unwrap(), "2147483647.999999999");
    assert_eq!(capture.get("latency_budget").unwrap(), "0.000000000");
    assert_eq!(capture.get("liveliness").unwrap(), "0:0.000000000");
    assert_eq!(capture.get("qos_reliability").unwrap(), "1:1.000000000");
    assert_eq!(capture.get("destination_order").unwrap(), "0");
    assert_eq!(capture.get("history").unwrap(), "1:1");
    assert_eq!(capture.get("resource_limits").unwrap(), "1:-1:-1");
    assert_eq!(capture.get("transport_priority").unwrap(), "0");
    assert_eq!(capture.get("lifespan").unwrap(), "2147483647.999999999");
    assert_eq!(capture.get("ownership").unwrap(), "0");
    assert_eq!(capture.get("ownership_strength").unwrap(), "0");
    assert_eq!(
        capture.get("writer_data_lifecycle").unwrap(),
        "1,2147483647.999999999,2147483647.999999999"
    );
    assert_eq!(capture.get("relaxed_qos_matching").unwrap(), "0");
    assert_eq!(capture.get("synchronous_endpoint").unwrap(), "0");
}

#[test]
fn dds_log_regex_reader_qos() {
    let dds_log_regex = DdsiLogRegex::new().unwrap();
    let reader_qos_sample = "2022-01-23T14:11:29+0000 1642947089.987560/    (anon): READER 5bbed783:7b:1:3907 QOS={topic=Test_logevent_logLevel_418de7a5,type=Test::logevent_logLevel_418de7a5,presentation=0:0:0,partition={nile.Test.data},durability=2,durability_service=0.000000000:{0:100}:{-1:-1:-1},deadline=2147483647.999999999,latency_budget=0.000000000,liveliness=0:2147483647.999999999,reliability=1:0.100000000,destination_order=0,history=0:100,resource_limits=-1:-1:-1,transport_priority=0,lifespan=2147483647.999999999,ownership=0,time_based_filter=0.000000000,reader_data_lifecycle=2147483647.999999999:2147483647.999999999:0:1:1,relaxed_qos_matching=0,reader_lifespan={0,2147483647.999999999},subscription_keys={0,{}},share={0,},synchronous_endpoint=0}";

    let matches = dds_log_regex.matches(reader_qos_sample);

    let capture = dds_log_regex.captures(2, reader_qos_sample).unwrap();

    assert!(matches.contains(&2));
    assert_eq!(capture.get("year").unwrap(), "2022");
    assert_eq!(capture.get("month").unwrap(), "01");
    assert_eq!(capture.get("day").unwrap(), "23");
    assert_eq!(capture.get("hour").unwrap(), "14");
    assert_eq!(capture.get("min").unwrap(), "11");
    assert_eq!(capture.get("sec").unwrap(), "29");
    assert_eq!(capture.get("timezone").unwrap(), "0000");
    assert_eq!(capture.get("timestamp").unwrap(), "1642947089.987560");
    assert_eq!(capture.get("thread").unwrap(), "(anon)");
    assert_eq!(capture.get("rw").unwrap(), "READER");
    assert_eq!(capture.get("system_id").unwrap(), "5bbed783:7b:1");
    assert_eq!(capture.get("rw_id").unwrap(), "3907");
    assert_eq!(capture.get("topic").unwrap(), "Test_logevent_logLevel_418de7a5");
    assert_eq!(capture.get("type").unwrap(), "Test::logevent_logLevel_418de7a5");
    assert_eq!(capture.get("partition").unwrap(), "nile.Test.data");
    assert_eq!(capture.get("synchronous_endpoint").unwrap(), "0");
}

#[test]
fn dds_log_regex_writer_sedp_st0() {
    let dds_log_regex = DdsiLogRegex::new().unwrap();
    let sedp_st0_sample = "2021-12-07T22:22:48+0000 1638915768.903511/dq.builtin: SEDP ST0 7efc2093:7b:1:302 reliable transient writer: __BUILT-IN PARTITION__.DCPSParticipant/kernelModule::v_participantInfo p(open) NEW (as 239.255.0.1:7401 139.229.170.24:37673) QOS={topic=DCPSParticipant,type=kernelModule::v_participantInfo,presentation=1:0:0,partition={__BUILT-IN PARTITION__},durability=2,durability_service=0.000000000:{0:1}:{-1:-1:-1},deadline=2147483647.999999999,latency_budget=0.000000000,liveliness=0:0.000000000,reliability=1:0.000000000,destination_order=0,history=1:-1,resource_limits=-1:-1:-1,transport_priority=0,lifespan=2147483647.999999999,ownership=0,ownership_strength=0,writer_data_lifecycle={1,2147483647.999999999,2147483647.999999999},relaxed_qos_matching=0,synchronous_endpoint=0}";

    let matches = dds_log_regex.matches(sedp_st0_sample);

    assert!(matches.contains(&3));

    let capture = dds_log_regex.captures(3, sedp_st0_sample).unwrap();

    assert_eq!(capture.get("year").unwrap(), "2021");
    assert_eq!(capture.get("month").unwrap(), "12");
    assert_eq!(capture.get("day").unwrap(), "07");
    assert_eq!(capture.get("hour").unwrap(), "22");
    assert_eq!(capture.get("min").unwrap(), "22");
    assert_eq!(capture.get("sec").unwrap(), "48");
    assert_eq!(capture.get("timezone").unwrap(), "0000");
    assert_eq!(capture.get("timestamp").unwrap(), "1638915768.903511");
    assert_eq!(capture.get("system_id").unwrap(), "7efc2093:7b:1");
    assert_eq!(capture.get("rw_id").unwrap(), "302");
    assert_eq!(capture.get("reliability").unwrap(), "reliable");
    assert_eq!(capture.get("durability").unwrap(), "transient");
    assert_eq!(capture.get("rw").unwrap(), "writer");
    assert_eq!(
        capture.get("discard").unwrap(),
        "__BUILT-IN PARTITION__.DCPSParticipant/kernelModule::v_participantInfo"
    );
    assert_eq!(capture.get("subnet").unwrap(), "239.255.0.1");
    assert_eq!(capture.get("subnet_port").unwrap(), "7401");
    assert_eq!(capture.get("hostname").unwrap(), "139.229.170.24");
    assert_eq!(capture.get("hostname_port").unwrap(), "37673");
    assert_eq!(capture.get("topic").unwrap(), "DCPSParticipant");
    assert_eq!(capture.get("type").unwrap(), "kernelModule::v_participantInfo");
    assert_eq!(capture.get("presentation").unwrap(), "1:0:0");
    assert_eq!(capture.get("partition").unwrap(), "__BUILT-IN PARTITION__");
    assert_eq!(capture.get("qos_durability").unwrap(), "2");
    assert_eq!(
        capture.get("durability_service").unwrap(),
        "0.000000000:{0:1}:{-1:-1:-1}"
    );
    assert_eq!(capture.get("deadline").unwrap(), "2147483647.999999999");
    assert_eq!(capture.get("latency_budget").unwrap(), "0.000000000");
    assert_eq!(capture.get("liveliness").unwrap(), "0:0.000000000");
    assert_eq!(capture.get("qos_reliability").unwrap(), "1:0.000000000");
    assert_eq!(capture.get("destination_order").unwrap(), "0");
    assert_eq!(capture.get("history").unwrap(), "1:-1");
    assert_eq!(capture.get("resource_limits").unwrap(), "-1:-1:-1");
    assert_eq!(capture.get("transport_priority").unwrap(), "0");
    assert_eq!(capture.get("lifespan").unwrap(), "2147483647.999999999");
    assert_eq!(capture.get("ownership").unwrap(), "0");
    assert_eq!(capture.get("ownership_strength").unwrap(), "0");
    assert_eq!(
        capture.get("writer_data_lifecycle").unwrap(),
        "1,2147483647.999999999,2147483647.999999999"
    );
    assert_eq!(capture.get("relaxed_qos_matching").unwrap(), "0");
    assert_eq!(capture.get("synchronous_endpoint").unwrap(), "0");
}

#[test]
fn dds_log_regex_reader_sedp_st0() {
    let dds_log_regex = DdsiLogRegex::new().unwrap();
    let sedp_st0_sample = "2022-01-23T14:11:29+0000 1642947089.904222/dq.builtin: SEDP ST0 745ad3d:7b:1:5507 reliable transient reader: nile.Test.data.Test_logevent_summaryState_782ec3fd/Test::logevent_summaryState_782ec3fd p(open) NEW (as 239.255.0.1:7401 172.17.0.4:39948) QOS={topic=Test_logevent_summaryState_782ec3fd,type=Test::logevent_summaryState_782ec3fd,presentation=0:0:0,partition={nile.Test.data},durability=2,durability_service=0.000000000:{0:100}:{-1:-1:-1},deadline=2147483647.999999999,latency_budget=0.000000000,liveliness=0:2147483647.999999999,reliability=1:0.100000000,destination_order=0,history=0:100,resource_limits=-1:-1:-1,transport_priority=0,lifespan=2147483647.999999999,ownership=0,time_based_filter=0.000000000,reader_data_lifecycle=2147483647.999999999:2147483647.999999999:0:1:1,relaxed_qos_matching=0,reader_lifespan={0,2147483647.999999999},subscription_keys={0,{}},share={0,},synchronous_endpoint=0}";

    let matches = dds_log_regex.matches(sedp_st0_sample);

    assert!(matches.contains(&4));

    let capture = dds_log_regex.captures(4, sedp_st0_sample).unwrap();

    assert_eq!(capture.get("year").unwrap(), "2022");
    assert_eq!(capture.get("month").unwrap(), "01");
    assert_eq!(capture.get("day").unwrap(), "23");
    assert_eq!(capture.get("hour").unwrap(), "14");
    assert_eq!(capture.get("min").unwrap(), "11");
    assert_eq!(capture.get("sec").unwrap(), "29");
    assert_eq!(capture.get("timezone").unwrap(), "0000");
    assert_eq!(capture.get("timestamp").unwrap(), "1642947089.904222");
    assert_eq!(capture.get("system_id").unwrap(), "745ad3d:7b:1");
    assert_eq!(capture.get("rw_id").unwrap(), "5507");
    assert_eq!(capture.get("reliability").unwrap(), "reliable");
    assert_eq!(capture.get("durability").unwrap(), "transient");
    assert_eq!(capture.get("rw").unwrap(), "reader");
    assert_eq!(
        capture.get("discard").unwrap(),
        "nile.Test.data.Test_logevent_summaryState_782ec3fd/Test::logevent_summaryState_782ec3fd"
    );
    assert_eq!(capture.get("subnet").unwrap(), "239.255.0.1");
    assert_eq!(capture.get("subnet_port").unwrap(), "7401");
    assert_eq!(capture.get("hostname").unwrap(), "172.17.0.4");
    assert_eq!(capture.get("hostname_port").unwrap(), "39948");
    assert_eq!(capture.get("topic").unwrap(), "Test_logevent_summaryState_782ec3fd");
    assert_eq!(capture.get("type").unwrap(), "Test::logevent_summaryState_782ec3fd");
    assert_eq!(capture.get("presentation").unwrap(), "0:0:0");
    assert_eq!(capture.get("partition").unwrap(), "nile.Test.data");
    assert_eq!(capture.get("qos_durability").unwrap(), "2");
    assert_eq!(
        capture.get("durability_service").unwrap(),
        "0.000000000:{0:100}:{-1:-1:-1}"
    );
    assert_eq!(capture.get("deadline").unwrap(), "2147483647.999999999");
    assert_eq!(capture.get("latency_budget").unwrap(), "0.000000000");
    assert_eq!(capture.get("liveliness").unwrap(), "0:2147483647.999999999");
    assert_eq!(capture.get("qos_reliability").unwrap(), "1:0.100000000");
    assert_eq!(capture.get("destination_order").unwrap(), "0");
    assert_eq!(capture.get("history").unwrap(), "0:100");
    assert_eq!(capture.get("resource_limits").unwrap(), "-1:-1:-1");
    assert_eq!(capture.get("transport_priority").unwrap(), "0");
    assert_eq!(capture.get("lifespan").unwrap(), "2147483647.999999999");
    assert_eq!(capture.get("ownership").unwrap(), "0");
    assert_eq!(capture.get("synchronous_endpoint").unwrap(), "0");
}

#[test]
fn dds_log_regex_reliable_volatile_reader_sedp_st0() {
    let dds_log_regex = DdsiLogRegex::new().unwrap();
    let sedp_st0_sample = "2022-01-23T14:11:29+0000 1642947089.895283/dq.builtin: SEDP ST0 745ad3d:7b:1:3b07 reliable volatile reader: nile.Test.cmd.Test_command_start_cc827fa3/Test::command_start_cc827fa3 p(open) NEW (as 239.255.0.1:7401 172.17.0.4:39948) QOS={topic=Test_command_start_cc827fa3,type=Test::command_start_cc827fa3,presentation=0:0:0,partition={nile.Test.cmd},durability=0,deadline=2147483647.999999999,latency_budget=0.000000000,liveliness=0:2147483647.999999999,reliability=1:0.100000000,destination_order=0,history=0:100,resource_limits=-1:-1:-1,transport_priority=0,ownership=0,time_based_filter=0.000000000,reader_data_lifecycle=2147483647.999999999:2147483647.999999999:0:1:1,relaxed_qos_matching=0,reader_lifespan={0,2147483647.999999999},subscription_keys={0,{}},share={0,},synchronous_endpoint=0}";

    let matches = dds_log_regex.matches(sedp_st0_sample);

    assert!(matches.contains(&4));

    let capture = dds_log_regex.captures(4, sedp_st0_sample).unwrap();

    assert_eq!(capture.get("year").unwrap(), "2022");
    assert_eq!(capture.get("month").unwrap(), "01");
    assert_eq!(capture.get("day").unwrap(), "23");
    assert_eq!(capture.get("hour").unwrap(), "14");
    assert_eq!(capture.get("min").unwrap(), "11");
    assert_eq!(capture.get("sec").unwrap(), "29");
    assert_eq!(capture.get("timezone").unwrap(), "0000");
    assert_eq!(capture.get("timestamp").unwrap(), "1642947089.895283");
    assert_eq!(capture.get("system_id").unwrap(), "745ad3d:7b:1");
    assert_eq!(capture.get("rw_id").unwrap(), "3b07");
    assert_eq!(capture.get("reliability").unwrap(), "reliable");
    assert_eq!(capture.get("durability").unwrap(), "volatile");
    assert_eq!(capture.get("rw").unwrap(), "reader");
    assert_eq!(
        capture.get("discard").unwrap(),
        "nile.Test.cmd.Test_command_start_cc827fa3/Test::command_start_cc827fa3"
    );
    assert_eq!(capture.get("subnet").unwrap(), "239.255.0.1");
    assert_eq!(capture.get("subnet_port").unwrap(), "7401");
    assert_eq!(capture.get("hostname").unwrap(), "172.17.0.4");
    assert_eq!(capture.get("hostname_port").unwrap(), "39948");
    assert_eq!(capture.get("topic").unwrap(), "Test_command_start_cc827fa3");
    assert_eq!(capture.get("type").unwrap(), "Test::command_start_cc827fa3");
    assert_eq!(capture.get("presentation").unwrap(), "0:0:0");
    assert_eq!(capture.get("partition").unwrap(), "nile.Test.cmd");
    assert_eq!(capture.get("qos_durability").unwrap(), "0");
    assert_eq!(capture.get("deadline").unwrap(), "2147483647.999999999");
    assert_eq!(capture.get("latency_budget").unwrap(), "0.000000000");
    assert_eq!(capture.get("liveliness").unwrap(), "0:2147483647.999999999");
    assert_eq!(capture.get("qos_reliability").unwrap(), "1:0.100000000");
    assert_eq!(capture.get("destination_order").unwrap(), "0");
    assert_eq!(capture.get("history").unwrap(), "0:100");
    assert_eq!(capture.get("resource_limits").unwrap(), "-1:-1:-1");
    assert_eq!(capture.get("transport_priority").unwrap(), "0");
    assert_eq!(capture.get("ownership").unwrap(), "0");
    assert_eq!(capture.get("synchronous_endpoint").unwrap(), "0");
}

#[test]
fn own_ip() {
    let dds_log_regex = DdsiLogRegex::new().unwrap();
    let own_ip_sample =
        "2022-01-23T14:08:13+0000 1642946893.209853/      main: ownip: 172.17.0.3";
    let matches = dds_log_regex.matches(own_ip_sample);

    assert!(matches.contains(&5));

    let capture = dds_log_regex.captures(5, own_ip_sample).unwrap();

    assert_eq!(capture.get("hostname").unwrap(), "172.17.0.3");
}

#[test]
fn writer_sedp_st3() {
    let dds_log_regex = DdsiLogRegex::new().unwrap();
    let writer_sedp_st3 =
    "2022-01-23T14:11:51+0000 1642947111.749832/dq.builtin: SEDP ST3 745ad3d:7b:1:4802delete_proxy_writer (745ad3d:7b:1:4802) - deleting";

    let matches = dds_log_regex.matches(writer_sedp_st3);

    assert!(matches.contains(&6));

    let capture = dds_log_regex.captures(6, writer_sedp_st3).unwrap();

    assert_eq!(capture.get("system_id").unwrap(), "745ad3d:7b:1");
    assert_eq!(capture.get("rw_id").unwrap(), "4802");
}

#[test]
fn reader_sedp_st3() {
    let dds_log_regex = DdsiLogRegex::new().unwrap();
    let reader_sedp_st3 =
    "2022-01-23T14:11:51+0000 1642947111.745674/dq.builtin: SEDP ST3 745ad3d:7b:1:3007delete_proxy_reader (745ad3d:7b:1:3007) - deleting";

    let matches = dds_log_regex.matches(reader_sedp_st3);

    assert!(matches.contains(&7));

    let capture = dds_log_regex.captures(7, reader_sedp_st3).unwrap();

    assert_eq!(capture.get("system_id").unwrap(), "745ad3d:7b:1");
    assert_eq!(capture.get("rw_id").unwrap(), "3007");
}

#[test]
fn parse_match() {
    let dds_log_regex = DdsiLogRegex::new().unwrap();
    let text_samples_match = [
        "2022-01-23T14:08:13+0000 1642946893.209853/      main: ownip: 172.17.0.3",
        "2021-12-07T22:19:48+0000 1638915588.796443/      main: handleParticipantsSelf: found 428f812:7b:1 (self)",
        "2021-12-07T22:19:48+0000 1638915588.898675/      main: WRITER 428f812:7b:1:2302 QOS={topic=d_sampleChain,type=durabilityModule2::d_sampleChain_s,presentation=1:0:0,partition={durabilityPartition},durability=0,durability_service=0.000000000:{0:1}:{-1:-1:-1},deadline=2147483647.999999999,latency_budget=0.000000000,liveliness=0:0.000000000,reliability=1:1.000000000,destination_order=0,history=1:1,resource_limits=1:-1:-1,transport_priority=0,lifespan=2147483647.999999999,ownership=0,ownership_strength=0,writer_data_lifecycle={1,2147483647.999999999,2147483647.999999999},relaxed_qos_matching=0,synchronous_endpoint=0}",
        "2021-12-07T22:22:48+0000 1638915768.903511/dq.builtin: SEDP ST0 7efc2093:7b:1:302 reliable transient writer: __BUILT-IN PARTITION__.DCPSParticipant/kernelModule::v_participantInfo p(open) NEW (as 239.255.0.1:7401 139.229.170.24:37673) QOS={topic=DCPSParticipant,type=kernelModule::v_participantInfo,presentation=1:0:0,partition={__BUILT-IN PARTITION__},durability=2,durability_service=0.000000000:{0:1}:{-1:-1:-1},deadline=2147483647.999999999,latency_budget=0.000000000,liveliness=0:0.000000000,reliability=1:0.000000000,destination_order=0,history=1:-1,resource_limits=-1:-1:-1,transport_priority=0,lifespan=2147483647.999999999,ownership=0,ownership_strength=0,writer_data_lifecycle={1,2147483647.999999999,2147483647.999999999},relaxed_qos_matching=0,synchronous_endpoint=0}",
        "2022-01-23T14:11:29+0000 1642947089.895283/dq.builtin: SEDP ST0 745ad3d:7b:1:3b07 reliable volatile reader: nile.Test.cmd.Test_command_start_cc827fa3/Test::command_start_cc827fa3 p(open) NEW (as 239.255.0.1:7401 172.17.0.4:39948) QOS={topic=Test_command_start_cc827fa3,type=Test::command_start_cc827fa3,presentation=0:0:0,partition={nile.Test.cmd},durability=0,deadline=2147483647.999999999,latency_budget=0.000000000,liveliness=0:2147483647.999999999,reliability=1:0.100000000,destination_order=0,history=0:100,resource_limits=-1:-1:-1,transport_priority=0,ownership=0,time_based_filter=0.000000000,reader_data_lifecycle=2147483647.999999999:2147483647.999999999:0:1:1,relaxed_qos_matching=0,reader_lifespan={0,2147483647.999999999},subscription_keys={0,{}},share={0,},synchronous_endpoint=0}",
        "2022-01-23T14:11:29+0000 1642947089.987961/    (anon): READER 5bbed783:7b:1:3b07 QOS={topic=Test_logevent_summaryState_782ec3fd,type=Test::logevent_summaryState_782ec3fd,presentation=0:0:0,partition={nile.Test.data},durability=2,durability_service=0.000000000:{0:100}:{-1:-1:-1},deadline=2147483647.999999999,latency_budget=0.000000000,liveliness=0:2147483647.999999999,reliability=1:0.100000000,destination_order=0,history=0:100,resource_limits=-1:-1:-1,transport_priority=0,lifespan=2147483647.999999999,ownership=0,time_based_filter=0.000000000,reader_data_lifecycle=2147483647.999999999:2147483647.999999999:0:1:1,relaxed_qos_matching=0,reader_lifespan={0,2147483647.999999999},subscription_keys={0,{}},share={0,},synchronous_endpoint=0}",
        "2022-01-23T14:11:51+0000 1642947111.749832/dq.builtin: SEDP ST3 745ad3d:7b:1:4802delete_proxy_writer (745ad3d:7b:1:4802) - deleting",
        "2022-01-23T14:11:51+0000 1642947111.745674/dq.builtin: SEDP ST3 745ad3d:7b:1:3007delete_proxy_reader (745ad3d:7b:1:3007) - deleting",
        ];
    let timestamps = [
        "1642946893.209853",
        "1638915588.796443",
        "1638915588.898675",
        "1638915768.903511",
        "1642947089.895283",
        "1642947089.987961",
        "1642947111.749832",
        "1642947111.745674",
    ];

    for (text, timestamp) in text_samples_match.iter().zip(timestamps.iter()) {
        let capture = dds_log_regex.parse(text).unwrap();
        assert_eq!(capture.get_capture().get("timestamp").unwrap(), *timestamp);
    }
}
#[test]
#[should_panic]
fn parse_no_match() {
    let dds_log_regex = DdsiLogRegex::new().unwrap();
    let text_sample_no_match =
        "2022-01-20T13:24:36+0000 1642685076.168332/dq.builtin: thread_cputime 1260.618874505";

    dds_log_regex.parse(text_sample_no_match).unwrap();
}
