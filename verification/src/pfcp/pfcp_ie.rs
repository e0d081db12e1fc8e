//! PFCP information element types (TS 29.244 8.1.2).

use vstd::prelude::*;

verus! {

pub const CREATE_PDR: u16 = 1;
pub const PDI: u16 = 2;
pub const CREATE_FAR: u16 = 3;
pub const FORWARDING_PARAMETERS: u16 = 4;
pub const DUPLICATING_PARAMETERS: u16 = 5;
pub const CREATE_URR: u16 = 6;
pub const CREATE_QER: u16 = 7;
pub const CREATED_PDR: u16 = 8;
pub const UPDATE_PDR: u16 = 9;
pub const UPDATE_FAR: u16 = 10;
pub const UPDATE_FORWARDING_PARAMETERS: u16 = 11;
pub const UPDATE_BAR_RESPONSE: u16 = 12;
pub const UPDATE_URR: u16 = 13;
pub const UPDATE_QER: u16 = 14;
pub const REMOVE_PDR: u16 = 15;
pub const REMOVE_FAR: u16 = 16;
pub const REMOVE_URR: u16 = 17;
pub const REMOVE_QER: u16 = 18;
pub const CAUSE: u16 = 19;
pub const SOURCE_INTERFACE: u16 = 20;
pub const F_TEID: u16 = 21;
pub const NETWORK_INSTANCE: u16 = 22;
pub const SDF_FILTER: u16 = 23;
pub const APPLICATION_ID: u16 = 24;
pub const GATE_STATUS: u16 = 25;
pub const MBR: u16 = 26;
pub const GBR: u16 = 27;
pub const QER_CORRELATION_ID: u16 = 28;
pub const PRECEDENCE: u16 = 29;
pub const TRANSPORT_LEVEL_MARKING: u16 = 30;
pub const VOLUME_THRESHOLD: u16 = 31;
pub const TIME_THRESHOLD: u16 = 32;
pub const MONITORING_TIME: u16 = 33;
pub const SUBSEQUENT_VOLUME_THRESHOLD: u16 = 34;
pub const SUBSEQUENT_TIME_THRESHOLD: u16 = 35;
pub const INACTIVITY_DETECTION_TIME: u16 = 36;
pub const REPORTING_TRIGGERS: u16 = 37;
pub const REDIRECT_INFORMATION: u16 = 38;
pub const REPORT_TYPE: u16 = 39;
pub const OFFENDING_IE: u16 = 40;
pub const FORWARDING_POLICY: u16 = 41;
pub const DESTINATION_INTERFACE: u16 = 42;
pub const UP_FUNCTION_FEATURES: u16 = 43;
pub const APPLY_ACTION: u16 = 44;
pub const DOWNLINK_DATA_SERVICE_INFORMATION: u16 = 45;
pub const DOWNLINK_DATA_NOTIFICATION_DELAY: u16 = 46;
pub const DL_BUFFERING_DURATION: u16 = 47;
pub const DL_BUFFERING_SUGGESTED_PACKET_COUNT: u16 = 48;
pub const PFCPSMREQ_FLAGS: u16 = 49;
pub const PFCPSRRSP_FLAGS: u16 = 50;
pub const LOAD_CONTROL_INFORMATION: u16 = 51;
pub const SEQUENCE_NUMBER: u16 = 52;
pub const METRIC: u16 = 53;
pub const OVERLOAD_CONTROL_INFORMATION: u16 = 54;
pub const TIMER: u16 = 55;
pub const PDR_ID: u16 = 56;
pub const F_SEID: u16 = 57;
pub const APPLICATION_IDS_PFDS: u16 = 58;
pub const PFD_CONTEXT: u16 = 59;
pub const NODE_ID: u16 = 60;
pub const PFD_CONTENTS: u16 = 61;
pub const MEASUREMENT_METHOD: u16 = 62;
pub const USAGE_REPORT_TRIGGER: u16 = 63;
pub const MEASUREMENT_PERIOD: u16 = 64;
pub const FQ_CSID: u16 = 65;
pub const VOLUME_MEASUREMENT: u16 = 66;
pub const DURATION_MEASUREMENT: u16 = 67;
pub const APPLICATION_DETECTION_INFORMATION: u16 = 68;
pub const TIME_OF_FIRST_PACKET: u16 = 69;
pub const TIME_OF_LAST_PACKET: u16 = 70;
pub const QUOTA_HOLDING_TIME: u16 = 71;
pub const DROPPED_DL_TRAFFIC_THRESHOLD: u16 = 72;
pub const VOLUME_QUOTA: u16 = 73;
pub const TIME_QUOTA: u16 = 74;
pub const START_TIME: u16 = 75;
pub const END_TIME: u16 = 76;
pub const QUERY_URR: u16 = 77;
pub const USAGE_REPORT_SMR: u16 = 78;
pub const USAGE_REPORT_SDR: u16 = 79;
pub const USAGE_REPORT_SRR: u16 = 80;
pub const URR_ID: u16 = 81;
pub const LINKED_URR_ID: u16 = 82;
pub const DOWNLINK_DATA_REPORT: u16 = 83;
pub const OUTER_HEADER_CREATION: u16 = 84;
pub const CREATE_BAR: u16 = 85;
pub const UPDATE_BAR_REQUEST: u16 = 86;
pub const REMOVE_BAR: u16 = 87;
pub const BAR_ID: u16 = 88;
pub const CP_FUNCTION_FEATURES: u16 = 89;
pub const USAGE_INFORMATION: u16 = 90;
pub const APPLICATION_INSTANCE_ID: u16 = 91;
pub const FLOW_INFORMATION: u16 = 92;
pub const UE_IP_ADDRESS: u16 = 93;
pub const PACKET_RATE: u16 = 94;
pub const OUTER_HEADER_REMOVAL: u16 = 95;
pub const RECOVERY_TIME_STAMP: u16 = 96;
pub const DL_FLOW_LEVEL_MARKING: u16 = 97;
pub const HEADER_ENRICHMENT: u16 = 98;
pub const ERROR_INDICATION_REPORT: u16 = 99;
pub const MEASUREMENT_INFORMATION: u16 = 100;
pub const NODE_REPORT_TYPE: u16 = 101;
pub const USER_PLANE_PATH_FAILURE_REPORT: u16 = 102;
pub const REMOTE_GTP_U_PEER: u16 = 103;
pub const UR_SEQN: u16 = 104;
pub const UPDATE_DUPLICATING_PARAMETERS: u16 = 105;
pub const ACTIVATE_PREDEFINED_RULES: u16 = 106;
pub const DEACTIVATE_PREDEFINED_RULES: u16 = 107;
pub const FAR_ID: u16 = 108;
pub const QER_ID: u16 = 109;
pub const OCI_FLAGS: u16 = 110;
pub const PFCP_ASSOCIATION_RELEASE_REQUEST: u16 = 111;
pub const GRACEFUL_RELEASE_PERIOD: u16 = 112;
pub const PDN_TYPE: u16 = 113;
pub const FAILED_RULE_ID: u16 = 114;
pub const TIME_QUOTA_MECHANISM: u16 = 115;
pub const RESERVED_116: u16 = 116;
pub const USER_PLANE_INACTIVITY_TIMER: u16 = 117;
pub const AGGREGATED_URRS: u16 = 118;
pub const MULTIPLIER: u16 = 119;
pub const AGGREGATED_URR_ID: u16 = 120;
pub const SUBSEQUENT_VOLUME_QUOTA: u16 = 121;
pub const SUBSEQUENT_TIME_QUOTA: u16 = 122;
pub const RQI: u16 = 123;
pub const QFI: u16 = 124;
pub const QUERY_URR_REFERENCE: u16 = 125;
pub const ADDITIONAL_USAGE_REPORTS_INFORMATION: u16 = 126;
pub const CREATE_TRAFFIC_ENDPOINT: u16 = 127;
pub const CREATED_TRAFFIC_ENDPOINT: u16 = 128;
pub const UPDATE_TRAFFIC_ENDPOINT: u16 = 129;
pub const REMOVE_TRAFFIC_ENDPOINT: u16 = 130;
pub const TRAFFIC_ENDPOINT_ID: u16 = 131;
pub const ETHERNET_PACKET_FILTER: u16 = 132;
pub const MAC_ADDRESS: u16 = 133;
pub const C_TAG: u16 = 134;
pub const S_TAG: u16 = 135;
pub const ETHERTYPE: u16 = 136;
pub const PROXYING: u16 = 137;
pub const ETHERNET_FILTER_ID: u16 = 138;
pub const ETHERNET_FILTER_PROPERTIES: u16 = 139;
pub const SUGGESTED_BUFFERING_PACKETS_COUNT: u16 = 140;
pub const USER_ID: u16 = 141;
pub const ETHERNET_PDU_SESSION_INFORMATION: u16 = 142;
pub const ETHERNET_TRAFFIC_INFORMATION: u16 = 143;
pub const MAC_ADDRESSES_DETECTED: u16 = 144;
pub const MAC_ADDRESSES_REMOVED: u16 = 145;
pub const ETHERNET_INACTIVITY_TIMER: u16 = 146;
pub const ADDITIONAL_MONITORING_TIME: u16 = 147;
pub const EVENT_QUOTA: u16 = 148;
pub const EVENT_THRESHOLD: u16 = 149;
pub const SUBSEQUENT_EVENT_QUOTA: u16 = 150;
pub const SUBSEQUENT_EVENT_THRESHOLD: u16 = 151;
pub const TRACE_INFORMATION: u16 = 152;
pub const FRAMED_ROUTE: u16 = 153;
pub const FRAMED_ROUTING: u16 = 154;
pub const FRAMED_IPV6_ROUTE: u16 = 155;
pub const TIME_STAMP: u16 = 156;
pub const AVERAGING_WINDOW: u16 = 157;
pub const PAGING_POLICY_INDICATOR: u16 = 158;
pub const APN_DNN: u16 = 159;
pub const TGPP_INTERFACE_TYPE: u16 = 160;
pub const PFCPSRREQ_FLAGS: u16 = 161;
pub const PFCPAUREQ_FLAGS: u16 = 162;
pub const ACTIVATION_TIME: u16 = 163;
pub const DEACTIVATION_TIME: u16 = 164;
pub const CREATE_MAR: u16 = 165;
pub const THREE_GPP_ACCESS_FORWARDING_ACTION_INFORMATION: u16 = 166;
pub const NON_3GPP_ACCESS_FORWARDING_ACTION_INFORMATION: u16 = 167;
pub const REMOVE_MAR: u16 = 168;
pub const UPDATE_MAR: u16 = 169;
pub const MAR_ID: u16 = 170;
pub const STEERING_FUNCTIONALITY: u16 = 171;
pub const STEERING_MODE: u16 = 172;
pub const WEIGHT: u16 = 173;
pub const PRIORITY: u16 = 174;
pub const UPDATE_3GPP_ACCESS_FORWARDING_ACTION_INFORMATION: u16 = 175;
pub const UPDATE_NON_3GPP_ACCESS_FORWARDING_ACTION_INFORMATION: u16 = 176;
pub const UE_IP_ADDRESS_POOL_IDENTITY: u16 = 177;
pub const ALTERNATIVE_SMF_IP_ADDRESS: u16 = 178;
pub const PACKET_REPLICATION_AND_DETECTION_CARRY_ON_INFORMATION: u16 = 179;
pub const SMF_SET_ID: u16 = 180;
pub const QUOTA_VALIDITY_TIME: u16 = 181;
pub const NUMBER_OF_REPORTS: u16 = 182;
pub const PFCP_SESSION_RETENTION_INFORMATION: u16 = 183;
pub const PFCPASRSP_FLAGS: u16 = 184;
pub const CP_PFCP_ENTITY_IP_ADDRESS: u16 = 185;
pub const PFCPSEREQ_FLAGS: u16 = 186;
pub const USER_PLANE_PATH_RECOVERY_REPORT: u16 = 187;
pub const IP_MULTICAST_ADDRESSING_INFO: u16 = 188;
pub const JOIN_IP_MULTICAST_INFORMATION: u16 = 189;
pub const LEAVE_IP_MULTICAST_INFORMATION: u16 = 190;
pub const IP_MULTICAST_ADDRESS: u16 = 191;
pub const SOURCE_IP_ADDRESS: u16 = 192;
pub const PACKET_RATE_STATUS: u16 = 193;
pub const CREATE_BRIDGE_INFO_FOR_TSC: u16 = 194;
pub const CREATED_BRIDGE_INFO_FOR_TSC: u16 = 195;
pub const PORT_NUMBER: u16 = 196;
pub const NW_TT_PORT_NUMBER: u16 = 197;
pub const FIVE_GS_USER_PLANE_NODE_ID: u16 = 198;
pub const TSC_MANAGEMENT_INFORMATION_WITHIN_SESSION_MODIFICATION_REQUEST: u16 = 199;
pub const TSC_MANAGEMENT_INFORMATION_WITHIN_SESSION_MODIFICATION_RESPONSE: u16 = 200;
pub const TSC_MANAGEMENT_INFORMATION_WITHIN_SESSION_REPORT_REQUEST: u16 = 201;
pub const PORT_MANAGEMENT_INFORMATION_CONTAINER: u16 = 202;
pub const CLOCK_DRIFT_CONTROL_INFORMATION: u16 = 203;
pub const REQUESTED_CLOCK_DRIFT_INFORMATION: u16 = 204;
pub const CLOCK_DRIFT_REPORT: u16 = 205;
pub const TIME_DOMAIN_NUMBER: u16 = 206;
pub const TIME_OFFSET_THRESHOLD: u16 = 207;
pub const CUMULATIVE_RATE_RATIO_THRESHOLD: u16 = 208;
pub const TIME_OFFSET_MEASUREMENT: u16 = 209;
pub const CUMULATIVE_RATE_RATIO_MEASUREMENT: u16 = 210;
pub const REMOVE_SRR: u16 = 211;
pub const CREATE_SRR: u16 = 212;
pub const UPDATE_SRR: u16 = 213;
pub const SESSION_REPORT: u16 = 214;
pub const SRR_ID: u16 = 215;
pub const ACCESS_AVAILABILITY_CONTROL_INFORMATION: u16 = 216;
pub const REQUESTED_ACCESS_AVAILABILITY_INFORMATION: u16 = 217;
pub const ACCESS_AVAILABILITY_REPORT: u16 = 218;
pub const ACCESS_AVAILABILITY_INFORMATION: u16 = 219;
pub const PROVIDE_ATSSS_CONTROL_INFORMATION: u16 = 220;
pub const ATSSS_CONTROL_PARAMETERS: u16 = 221;
pub const MPTCP_CONTROL_INFORMATION: u16 = 222;
pub const ATSSS_LL_CONTROL_INFORMATION: u16 = 223;
pub const PMF_CONTROL_INFORMATION: u16 = 224;
pub const MPTCP_PARAMETERS: u16 = 225;
pub const ATSSS_LL_PARAMETERS: u16 = 226;
pub const PMF_PARAMETERS: u16 = 227;
pub const MPTCP_ADDRESS_INFORMATION: u16 = 228;
pub const LINK_SPECIFIC_MULTIPATH_IP_ADDRESS: u16 = 229;
pub const PMF_ADDRESS_INFORMATION: u16 = 230;
pub const ATSSS_LL_INFORMATION: u16 = 231;
pub const DATA_NETWORK_ACCESS_IDENTIFIER: u16 = 232;
pub const UE_IP_ADDRESS_POOL_INFORMATION: u16 = 233;
pub const AVERAGE_PACKET_DELAY: u16 = 234;
pub const MINIMUM_PACKET_DELAY: u16 = 235;
pub const MAXIMUM_PACKET_DELAY: u16 = 236;
pub const QOS_REPORT_TRIGGER: u16 = 237;
pub const GTP_U_PATH_QOS_CONTROL_INFORMATION: u16 = 238;
pub const GTP_U_PATH_QOS_REPORT: u16 = 239;
pub const QOS_INFORMATION_IN_GTP_U_PATH_QOS_REPORT: u16 = 240;
pub const GTP_U_PATH_INTERFACE_TYPE: u16 = 241;
pub const QOS_MONITORING_PER_QOS_FLOW_CONTROL_INFORMATION: u16 = 242;
pub const REQUESTED_QOS_MONITORING: u16 = 243;
pub const REPORTING_FREQUENCY: u16 = 244;
pub const PACKET_DELAY_THRESHOLDS: u16 = 245;
pub const MINIMUM_WAIT_TIME: u16 = 246;
pub const QOS_MONITORING_REPORT: u16 = 247;
pub const QOS_MONITORING_MEASUREMENT: u16 = 248;
pub const MT_EDT_CONTROL_INFORMATION: u16 = 249;
pub const DL_DATA_PACKETS_SIZE: u16 = 250;
pub const QER_CONTROL_INDICATIONS: u16 = 251;
pub const PACKET_RATE_STATUS_REPORT: u16 = 252;
pub const NF_INSTANCE_ID: u16 = 253;
pub const ETHERNET_CONTEXT_INFORMATION: u16 = 254;
pub const REDUNDANT_TRANSMISSION_PARAMETERS: u16 = 255;
pub const UPDATED_PDR: u16 = 256;
pub const S_NSSAI: u16 = 257;
pub const IP_VERSION: u16 = 258;
pub const PFCPASREQ_FLAGS: u16 = 259;
pub const DATA_STATUS: u16 = 260;
pub const PROVIDE_RDS_CONFIGURATION_INFORMATION: u16 = 261;
pub const RDS_CONFIGURATION_INFORMATION: u16 = 262;
pub const QUERY_PACKET_RATE_STATUS: u16 = 263;
pub const PACKET_RATE_STATUS_REPORT_SESSION_MODIFICATION_RESPONSE: u16 = 264;
pub const MULTIPATH_APPLICABLE_INDICATION: u16 = 265;
pub const USER_PLANE_NODE_MANAGEMENT_INFORMATION_CONTAINER: u16 = 266;
pub const UE_IP_ADDRESS_USAGE_INFORMATION: u16 = 267;
pub const NUMBER_OF_UE_IP_ADDRESSES: u16 = 268;
pub const VALIDITY_TIMER: u16 = 269;
pub const REDUNDANT_TRANSMISSION_FORWARDING_PARAMETERS: u16 = 270;
pub const TRANSPORT_DELAY_REPORTING: u16 = 271;
pub const PARTIAL_FAILURE_INFORMATION: u16 = 272;
pub const RESERVED_273: u16 = 273;
pub const OFFENDING_IE_INFORMATION: u16 = 274;
pub const RAT_TYPE: u16 = 275;
pub const L2TP_TUNNEL_INFORMATION: u16 = 276;
pub const L2TP_SESSION_INFORMATION: u16 = 277;
pub const L2TP_USER_AUTHENTICATION: u16 = 278;
pub const CREATED_L2TP_SESSION: u16 = 279;
pub const LNS_ADDRESS: u16 = 280;
pub const TUNNEL_PREFERENCE: u16 = 281;
pub const CALLING_NUMBER: u16 = 282;
pub const CALLED_NUMBER: u16 = 283;
pub const L2TP_SESSION_INDICATIONS: u16 = 284;
pub const DNS_SERVER_ADDRESS: u16 = 285;
pub const NBNS_SERVER_ADDRESS: u16 = 286;
pub const MAXIMUM_RECEIVE_UNIT: u16 = 287;
pub const THRESHOLDS: u16 = 288;
pub const STEERING_MODE_INDICATOR: u16 = 289;
pub const PFCP_SESSION_CHANGE_INFO: u16 = 290;
pub const GROUP_ID: u16 = 291;
pub const CP_IP_ADDRESS: u16 = 292;
pub const IP_ADDRESS_AND_PORT_NUMBER_REPLACEMENT: u16 = 293;
pub const DNS_QUERY_RESPONSE_FILTER: u16 = 294;
pub const DIRECT_REPORTING_INFORMATION: u16 = 295;
pub const EVENT_NOTIFICATION_URI: u16 = 296;
pub const NOTIFICATION_CORRELATION_ID: u16 = 297;
pub const REPORTING_FLAGS: u16 = 298;
pub const PREDEFINED_RULES_NAME: u16 = 299;
pub const MBS_SESSION_N4MB_CONTROL_INFORMATION: u16 = 300;
pub const MBS_MULTICAST_PARAMETERS: u16 = 301;
pub const ADD_MBS_UNICAST_PARAMETERS: u16 = 302;
pub const MBS_SESSION_N4MB_INFORMATION: u16 = 303;
pub const REMOVE_MBS_UNICAST_PARAMETERS: u16 = 304;
pub const MBS_SESSION_IDENTIFIER: u16 = 305;
pub const MULTICAST_TRANSPORT_INFORMATION: u16 = 306;
pub const MBSN4MB_REQ_FLAGS: u16 = 307;
pub const LOCAL_INGRESS_TUNNEL: u16 = 308;
pub const MBS_UNICAST_PARAMETERS_ID: u16 = 309;
pub const MBS_SESSION_N4_CONTROL_INFORMATION: u16 = 310;
pub const MBS_SESSION_N4_INFORMATION: u16 = 311;
pub const MBSN4_RESP_FLAGS: u16 = 312;
pub const TUNNEL_PASSWORD: u16 = 313;
pub const AREA_SESSION_ID: u16 = 314;
pub const PEER_UP_RESTART_REPORT: u16 = 315;
pub const DSCP_TO_PPI_CONTROL_INFORMATION: u16 = 316;
pub const DSCP_TO_PPI_MAPPING_INFORMATION: u16 = 317;
pub const PFCPSDRSP_FLAGS: u16 = 318;
pub const QER_INDICATIONS: u16 = 319;
pub const VENDOR_SPECIFIC_NODE_REPORT_TYPE: u16 = 320;
pub const CONFIGURED_TIME_DOMAIN: u16 = 321;
pub const METADATA: u16 = 322;
pub const TRAFFIC_PARAMETER_MEASUREMENT_CONTROL_INFORMATION: u16 = 323;
pub const TRAFFIC_PARAMETER_MEASUREMENT_REPORT: u16 = 324;
pub const TRAFFIC_PARAMETER_THRESHOLD: u16 = 325;
pub const DL_PERIODICITY: u16 = 326;
pub const N6_JITTER_MEASUREMENT: u16 = 327;
pub const TRAFFIC_PARAMETER_MEASUREMENT_INDICATION: u16 = 328;
pub const UL_PERIODICITY: u16 = 329;
pub const MPQUIC_CONTROL_INFORMATION: u16 = 330;
pub const MPQUIC_PARAMETERS: u16 = 331;
pub const MPQUIC_ADDRESS_INFORMATION: u16 = 332;
pub const TRANSPORT_MODE: u16 = 333;
pub const PROTOCOL_DESCRIPTION: u16 = 334;
pub const REPORTING_SUGGESTION_INFO: u16 = 335;
pub const TL_CONTAINER: u16 = 336;
pub const MEASUREMENT_INDICATION: u16 = 337;
pub const HPLMN_S_NSSAI: u16 = 338;
pub const MEDIA_TRANSPORT_PROTOCOL: u16 = 339;
pub const RTP_HEADER_EXTENSION_INFORMATION: u16 = 340;
pub const RTP_PAYLOAD_INFORMATION: u16 = 341;
pub const RTP_HEADER_EXTENSION_TYPE: u16 = 342;
pub const RTP_HEADER_EXTENSION_ID: u16 = 343;
pub const RTP_PAYLOAD_TYPE: u16 = 344;
pub const RTP_PAYLOAD_FORMAT: u16 = 345;
pub const EXTENDED_DL_BUFFERING_NOTIFICATION_POLICY: u16 = 346;
pub const MT_SDT_CONTROL_INFORMATION: u16 = 347;
pub const REPORTING_THRESHOLDS: u16 = 348;
pub const RTP_HEADER_EXTENSION_ADDITIONAL_INFORMATION: u16 = 349;
pub const MAPPED_N6_IP_ADDRESS: u16 = 350;
pub const N6_ROUTING_INFORMATION: u16 = 351;
pub const URI: u16 = 352;
pub const UE_LEVEL_MEASUREMENTS_CONFIGURATION: u16 = 353;
pub const N6_DELAY_MEASUREMENT_PROTOCOLS: u16 = 354;
pub const N6_DELAY_MEASUREMENT_CONTROL_INFORMATION: u16 = 355;
pub const N6_DELAY_MEASUREMENT_REPORT: u16 = 356;
pub const N6_DELAY_MEASUREMENT_INFORMATION: u16 = 357;
pub const MEASUREMENT_ENDPOINT_ADDRESS: u16 = 358;
pub const OPERATOR_CONFIGURABLE_UPF_CAPABILITY: u16 = 359;
pub const PACKET_INSPECTION_FUNCTIONALITY: u16 = 360;
pub const HEADER_HANDLING_CONTROL_RULE: u16 = 361;
pub const HEADER_HANDLING_REPORTING_CONTROL_INFO: u16 = 362;
pub const HEADER_HANDLING_CONTROL_INFORMATION: u16 = 363;
pub const HEADER_DETECTION_REFERENCE: u16 = 364;
pub const HEADER_DETECTION_SUPPORT_INFORMATION: u16 = 365;
pub const REPORTING_ENDPOINT_ID: u16 = 366;
pub const HEADER_HANDLING_CONTROL_REFERENCE: u16 = 367;
pub const HEADER_HANDLING_ACTION: u16 = 368;
pub const HEADER_INFORMATION: u16 = 369;
pub const HEADER_VALUE: u16 = 370;
pub const HEADER_HANDLING_CONDITION: u16 = 371;
pub const HEADER_HANDLING_CONTROL_ID: u16 = 372;
pub const HEADER_HANDLING_CONTROL_RULE_ID: u16 = 373;
pub const ON_PATH_N6_CONNECTION_INFORMATION: u16 = 374;
pub const MEASUREMENT_REPORTING_TYPE: u16 = 375;
pub const N6_DELAY_MEASUREMENT_FAILURE_INFORMATION: u16 = 376;
pub const N6_DELAY_MEASUREMENT_CONTROL_INFORMATION_ID: u16 = 377;
pub const PROTOCOL_SPECIFIC_CONFIGURATION_PARAMETERS: u16 = 378;
pub const MEASUREMENT_ENDPOINT_PORT_NUMBER: u16 = 379;
pub const HEADER_HANDLING_REPORTING_INDICATION: u16 = 380;
pub const RESERVED_381: u16 = 381;
pub const SMF_CHANGE_REASON: u16 = 382;
pub const EXTENDED_TRANSPORT_LEVEL_MARKING: u16 = 383;
pub const PDU_SET_IMPORTANCE: u16 = 384;
pub const MOQ_CONTROL_INFORMATION: u16 = 385;
pub const MOQ_INFORMATION: u16 = 386;
pub const MOQ_RELAY_IP_ADDRESS: u16 = 387;
pub const MEDIA_RELATED_INFORMATION_TRANSFER_INFO: u16 = 388;
pub const REPORTING_CONTROL_INFORMATION: u16 = 389;
pub const SECURITY_MODE_STAMP: u16 = 390;
pub const HMAC_KEY_STAMP: u16 = 391;
pub const SECURITY_MODE_OWAMP_TWAMP: u16 = 392;
pub const KEY_ID_AND_SHARED_SECRET_OWAMP_TWAMP: u16 = 393;
pub const REMAINING_DATA_REPORTING_INDICATION: u16 = 394;
pub const EXPEDITED_TRANSFER_INDICATION: u16 = 395;
pub const SESSION_REFLECTOR_MODE_STAMP: u16 = 396;
pub const PFD_PARTIAL_FAILURE_INFORMATION: u16 = 397;
pub const TRANSPORT_LEVEL_MARKING_INDICATIONS: u16 = 398;
pub const REDUNDANT_N3_N9_TRANSMISSION_INFORMATION: u16 = 399;
pub const LOCAL_N3_N9_TUNNEL_INFORMATION: u16 = 400;
pub const REMOTE_N3_N9_TUNNEL_INFORMATION: u16 = 401;
pub const BINDING_INDICATION: u16 = 402;
pub const PDU_SET_IMPORTANCE_FOR_N6_UNMARKED_PDUS: u16 = 403;
/// Update BAR within Session Modification Request (TS 29.244 7.5.4.11)
pub const UPDATE_BAR: u16 = 86;

} // verus!
