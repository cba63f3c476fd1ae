use sse_audit::disclosure::InfoDisclosure;
use sse_audit::error::SseError;
use sse_audit::folders::FolderNames;
use sse_audit::overview::CompanyInfo;

#[test]
fn test_company_info_try_from_json() {
    let raw_data = String::from(
        r#"jsonpCallback42305({"actionErrors":[],"actionMessages":[],"downloadFileName":null,"execlStream":null,"fieldErrors":{},"fileId":null,"isPagination":"true","jsonCallBack":"jsonpCallback42305","locale":"en_US","mergeSize":null,"mergeType":null,"pageHelp":{"beginPage":1,"cacheSize":1,"data":[{"updateDate":"20211130120921","planIssueCapital":2.7,"suspendStatus":"","wenHao":"","stockAuditName":"广东雅达电子股份有限公司","currStatus":8,"stockAuditNum":"972","registeResult":"","intermediary":[{"auditId":"972","i_intermediaryType":1,"i_intermediaryId":"0_1021","i_person":[{"i_p_personName":"杨雄辉","i_p_jobType":24,"i_p_personId":"732115","i_p_jobTitle":"项目协办人"},{"i_p_personName":"谭星","i_p_jobType":23,"i_p_personId":"732114","i_p_jobTitle":"保荐代表人B"},{"i_p_personName":"文斌","i_p_jobType":22,"i_p_personId":"732113","i_p_jobTitle":"保荐代表人A"},{"i_p_personName":"郜泽民","i_p_jobType":21,"i_p_personId":"732110","i_p_jobTitle":"保荐业务负责�..."#
    );
    let company_info = CompanyInfo::from_response(&raw_data);
    println!("{:#?}", company_info);
    // the capture is cut off mid-payload, so parsing cannot succeed
    assert!(company_info.is_err());
}

#[test]
fn test_invalid_company_info_try_from_json() {
    let raw_data = String::from(
        r#"jsonpCallback70586({"actionErrors":[],"actionMessages":[],"downloadFileName":null,"execlStream":null,"fieldErrors":{},"fileId":null,"isPagination":"true","jsonCallBack":"jsonpCallback70586","locale":"zh_CN","mergeSize":null,"mergeType":null,"pageHelp":{"beginPage":0,"cacheSize":1,"data":[],"endDate":null,"endPage":null,"objectResult":null,"pageCount":0,"pageNo":1,"pageSize":20,"searchDate":null,"sort":null,"startDate":null,"total":0},"pageNo":null,"pageSize":null,"queryDate":"","result":[],"securityCode":"","statistics":[{"num":31,"status":"1"},{"num":61,"status":"2"},{"num":405,"status":"5"},{"num":48,"status":"4"},{"num":145,"status":"8"},{"num":7,"status":"7"},{"num":12,"status":"3"},{"num":2,"status":"3-6"},{"num":10,"status":"3-1"},{"num":1,"status":"5-2"},{"num":390,"status":"5-1"},{"num":14,"status":"5-3"},{"num":6,"status":"7-1"},{"num":1,"status":"7-2"}],"texts":null,"type":"","validateCode":""})"#
    );
    let company_info = CompanyInfo::from_response(&raw_data);
    println!("{:#?}", company_info);
    // `result` is an empty array: the exchange does not know the company
    assert!(matches!(company_info, Err(SseError::EmptyResult)));
}

#[test]
fn disclosure_scenario_single_prospectus() {
    let resp = "cb({\"result\":[{\"publishDate\":\"2021-10-09\",\"fileTitle\":\"X\",\"filePath\":\"/x.pdf\",\"companyFullName\":\"大汉软件股份有限公司\",\"fileType\":30,\"fileVersion\":1}]})";
    let names = FolderNames::standard();
    let dis = InfoDisclosure::from_response(resp, &names).unwrap();
    assert_eq!(dis.prospectuses.declare.len(), 1);
    let f = &dis.prospectuses.declare[0];
    // the publish date disambiguates revisions sharing one slot
    assert_eq!(f.path, "Download/大汉软件股份有限公司/申报稿/X2021-10-09.pdf");
    assert_eq!(f.url, "http://static.sse.com.cn/stock/x.pdf");
}

#[test]
fn disclosure_title_with_parens_survives_unwrap() {
    // the payload's own parentheses must reach classification unmodified
    let resp = "cb({\"result\":[{\"publishDate\":\"2021-10-09\",\"fileTitle\":\"X (draft) (v2)\",\"filePath\":\"/x.pdf\",\"companyFullName\":\"大汉软件股份有限公司\",\"fileType\":30,\"fileVersion\":2}]})";
    let names = FolderNames::standard();
    let dis = InfoDisclosure::from_response(resp, &names).unwrap();
    let f = &dis.prospectuses.meeting[0];
    assert_eq!(f.filename, "X (draft) (v2)2021-10-09");
    assert_eq!(f.path, "Download/大汉软件股份有限公司/上会稿/X (draft) (v2)2021-10-09.pdf");
}

#[test]
fn test_info_disclosure_try_from_json() {
    let raw_data = String::from(
        r#"jsonpCallback99435173({"actionErrors":[],"actionMessages":[],"fieldErrors":{},"isPagination":"false","jsonCallBack":"jsonpCallback99435173","locale":"en_US","pageHelp":{"beginPage":1,"cacheSize":1,"data":[{"fileUpdateTime":"20210810173001","filePath":"\/information\/c\/202108\/599c224d1d56485ab2594cbb7880d1fb.pdf","publishDate":"2021-07-06","fileLastVersion":1,"stockAuditNum":"810","auditItemId":"893f416ff9bd11eb9f2608f1ea8a847f","filename":"599c224d1d56485ab2594cbb7880d1fb.pdf","companyFullName":"江苏宏微科技股份有限公司","fileSize":10172385,"StockType":1,"fileTitle":"江苏宏微科技股份有限公司科创板首次公开发行股票招股说明书（注册稿）","auditStatus":5,"fileVersion":4,"fileType":30,"MarketType":1,"fileId":"201168","OPERATION_SEQ":"c27f396abc045c2215d6889f543b109a"},{"fileUpdateTime":"20210810173001","filePath":"\/information\/c\/202108\/cf837f99004d446aa0fb2ad74eda44a1.pdf","publishDate":"2021-07-06","fileLastVersion":1,"stockAuditNum":"810","auditItemId":"893f416ff9bd11eb9f2608f1ea8a847f","filename":"cf837f99004d446aa0fb2ad74eda44a1.pdf","companyFullName":"江苏宏微科技股份有限公司","fileSize":954978,"StockType":1,"fileTitle":"民生证券股份有限公司关于江苏宏微科技股份有限公司首次公开发行股票并在科创板上市的发行保荐书","auditStatus":5,"fileVersion":4,"fileType":36,"MarketType":1,"fileId":"201167","OPERATION_SEQ":"c27f396abc045c2215d6889f543b109a"},{"fileUpdateTime":"20210708170000","filePath":"\/information\/c\/202107\/ff98a241cddb451b942291055c3428e7.pdf","publishDate":"2021-07-06","fileLastVersion":1,"stockAuditNum":"810","auditItemId":"a6b4d162c5571ca32a580ab2de8b1034","filename":"ff98a241cddb451b942291055c3428e7.pdf","companyFullName":"江苏宏微科技股份有限公司","fileSize":383081,"StockType":1,"fileTitle":"关于同意江苏宏微科技股份有限公司首次公开发行股票注册的批复","auditStatus":5,"fileVersion":4,"fileType":35,"MarketType":1,"fileId":"197008a","OPERATION_SEQ":"b845d9aeac87eef43cd894d28daa8c19"},{"fileUpdateTime":"20210706170001","filePath":"\/information\/c\/202107\/72e4fcaa40c441068b5f2a13234d4fa0.pdf","publishDate":"2021-07-06","fileLastVersion":1,"stockAuditNum":"810","auditItemId":"8bc41b27de3811eb9f2608f1ea8a847f","filename":"72e4fcaa40c441068b5f2a13234d4fa0.pdf","companyFullName":"江苏宏微科技股份有限公司","fileSize":10368026,"StockType":1,"fileTitle":"江苏宏微科技股份有限公司科创板首次公开发行股票招股说明书（注册稿）","auditStatus":4,"fileVersion":3,"fileType":30,"MarketType":1,"fileId":"196724","OPERATION_SEQ":"6ee357caad0c12f7f6d354f223f1052c"},{"fileUpdateTime":"20210706170000","filePath":"\/information\/c\/202107\/788223f9815047c083d36a9e6eb1e31f.pdf","publishDate":"2021-07-06","fileLastVersion":1,"stockAuditNum":"810","auditItemId":"f8dafdd4f0754b72a3bdae8fbfca78b9","filename":"788223f9815047c083d36a9e6eb1e31f.pdf","companyFullName":"江苏宏微科技股份有限公司","fileSize":490968,"StockType":1,"fileTitle":"8-3 补充法律意见书（五）","auditStatus":1,"fileVersion":1,"fileType":6,"MarketType":1,"fileId":"82213708","OPERATION_SEQ":"b6e5c7a1257596dfe158631a24755b81"},{"fileUpdateTime":"20210706170000","filePath":"\/information\/c\/202107\/9cf6cdf4ebef42a9ad0d8bdc65001bd9.pdf","publishDate":"2021-07-06","fileLastVersion":1,"stockAuditNum":"810","auditItemId":"cf14dff1bf9e43d8832469ed008ef597","filename":"9cf6cdf4ebef42a9ad0d8bdc65001bd9.pdf","companyFullName":"江苏宏微科技股份有限公司","fileSize":1661881,"StockType":1,"fileTitle":"8-1 发行人及保荐机构关于发行注册环节反馈意见落实函的回复","auditStatus":1,"fileVersion":1,"fileType":6,"MarketType":1,"fileId":"82213707","OPERATION_SEQ":"b6e5c7a1257596dfe158631a24755b81"},{"fileUpdateTime":"20210706170000","filePath":"\/information\/c\/202107\/2ee8e7c97fcf4d8989f742ab2751388e.pdf","publishDate":"2021-07-06","fileLastVersion":1,"stockAuditNum":"810","auditItemId":"7c705ffe18944d379273c162a31a2709","filename":"2ee8e7c97fcf4d8989f742ab2751388e.pdf","companyFullName":"江苏宏微科技股份有限公司","fileSize":1002971,"StockType":1,"fileTitle":"8-2 会计师关于发行注册环节反馈意见落实函的回复","auditStatus":1,"fileVersion":1,"fileType":6,"MarketType":1,"fileId":"82213706","OPERATION_SEQ":"b6e5c7a1257596dfe158631a24755b81"},{"fileUpdateTime":"20210602193001","filePath":"\/information\/c\/202106\/f2e332223b0048c8a2131eb8350fd42d.pdf","publishDate":"2021-06-02","fileLastVersion":2,"stockAuditNum":"810","auditItemId":"de365d91c39511eb9f2608f1ea8a847f","filename":"f2e332223b0048c8a2131eb8350fd42d.pdf","companyFullName":"江苏宏微科技股份有限公司","fileSize":6487234,"StockType":1,"fileTitle":"北京市环球律师事务所关于江苏宏微科技股份有限公司首次公开发行股票并在科创板上市的法律意见书","auditStatus":4,"fileVersion":3,"fileType":33,"MarketType":1,"fileId":"186761","OPERATION_SEQ":"1d877dcb53963b5139caadee89164dd7"},{"fileUpdateTime":"20210602193001","filePath":"\/information\/c\/202106\/247a03c0dd7947a288f1cc7d3d5b3c5c.pdf","publishDate":"2021-06-02","fileLastVersion":2,"stockAuditNum":"810","auditItemId":"de365d91c39511eb9f2608f1ea8a847f","filename":"247a03c0dd7947a288f1cc7d3d5b3c5c.pdf","companyFullName":"江苏宏微科技股份有限公司","fileSize":9016613,"StockType":1,"fileTitle":"天衡会计师事务所（特殊普通合伙）关于江苏宏微科技股份有限公司首次公开发行股票并在科创板上市的财务报表及审计报告","auditStatus":4,"fileVersion":3,"fileType":32,"MarketType":1,"fileId":"186760","OPERATION_SEQ":"1d877dcb53963b5139caadee89164dd7"},{"fileUpdateTime":"20210602193001","filePath":"\/information\/c\/202106\/737af05aa1e74ec6b9f11570aef55e4a.pdf","publishDate":"2021-06-02","fileLastVersion":2,"stockAuditNum":"810","auditItemId":"de365d91c39511eb9f2608f1ea8a847f","filename":"737af05aa1e74ec6b9f11570aef55e4a.pdf","companyFullName":"江苏宏微科技股份有限公司","fileSize":1119016,"StockType":1,"fileTitle":"民生证券股份有限公司关于江苏宏微科技股份有限公司首次公开发行股票并在科创板上市的上市保荐书","auditStatus":4,"fileVersion":3,"fileType":37,"MarketType":1,"fileId":"186759","OPERATION_SEQ":"1d877dcb53963b5139caadee89164dd7"},{"fileUpdateTime":"20210602193001","filePath":"\/information\/c\/202106\/d436966c9cab4bb4b73761dacc381eed.pdf","publishDate":"2021-06-02","fileLastVersion":2,"stockAuditNum":"810","auditItemId":"de365d91c39511eb9f2608f1ea8a847f","filename":"d436966c9cab4bb4b73761dacc381eed.pdf","companyFullName":"江苏宏微科技股份有限公司","fileSize":980222,"StockType":1,"fileTitle":"民生证券股份有限公司关于江苏宏微科技股份有限公司首次公开发行股票并在科创板上市的发行保荐书","auditStatus":4,"fileVersion":3,"fileType":36,"MarketType":1,"fileId":"186758","OPERATION_SEQ":"1d877dcb53963b5139caadee89164dd7"},{"fileUpdateTime":"20210602193001","filePath":"\/information\/c\/202106\/65118a0294ec413cad229b644839c93d.pdf","publishDate":"2021-06-02","fileLastVersion":2,"stockAuditNum":"810","auditItemId":"de365d91c39511eb9f2608f1ea8a847f","filename":"65118a0294ec413cad229b644839c93d.pdf","companyFullName":"江苏宏微科技股份有限公司","fileSize":10489719,"StockType":1,"fileTitle":"江苏宏微科技股份有限公司科创板首次公开发行股票招股说明书（注册稿）","auditStatus":4,"fileVersion":3,"fileType":30,"MarketType":1,"fileId":"186757","OPERATION_SEQ":"1d877dcb53963b5139caadee89164dd7"},{"fileUpdateTime":"20210525170002","filePath":"\/information\/c\/202105\/c96ebfbe2a7b4aa3b5f4e1ab86e7cd49.pdf","publishDate":"2021-05-25","fileLastVersion":1,"stockAuditNum":"810","auditItemId":"7e30e1b0497c44f4961c4a39681a8b03","filename":"c96ebfbe2a7b4aa3b5f4e1ab86e7cd49.pdf","companyFullName":"江苏宏微科技股份有限公司","fileSize":726295,"StockType":1,"fileTitle":"8-2 补充法律意见书（四）","auditStatus":1,"fileVersion":1,"fileType":6,"MarketType":1,"fileId":"81756169","OPERATION_SEQ":"5f835f570a4192324e601c45b5fa0f93"},{"fileUpdateTime":"20210525170002","filePath":"\/information\/c\/202105\/15f499bdaeec4f689b60a30180e8aa79.pdf","publishDate":"2021-05-25","fileLastVersion":1,"stockAuditNum":"810","auditItemId":"1aefe06cab3e4816a2724e05e391e057","filename":"15f499bdaeec4f689b60a30180e8aa79.pdf","companyFullName":"江苏宏微科技股份有限公司","fileSize":1096128,"StockType":1,"fileTitle":"8-1 发行人及保荐机构关于科创板上市委会议意见落实函的回复","auditStatus":1,"fileVersion":1,"fileType":6,"MarketType":1,"fileId":"81756168","OPERATION_SEQ":"5f835f570a4192324e601c45b5fa0f93"},{"fileUpdateTime":"20210511170002","filePath":"\/information\/c\/202105\/cd82936bed7e4f1c830fd68aad4c48ed.pdf","publishDate":"2021-05-11","fileLastVersion":1,"stockAuditNum":"810","auditItemId":"bc9bab4839d54bb69ace30a3ed58ab73","filename":"cd82936bed7e4f1c830fd68aad4c48ed.pdf","companyFullName":"江苏宏微科技股份有限公司","fileSize":1820723,"StockType":1,"fileTitle":"8-1 发行人及保荐机构关于审核中心意见落实函的回复","auditStatus":1,"fileVersion":1,"fileType":6,"MarketType":1,"fileId":"81566543","OPERATION_SEQ":"599b855f2b2e3bbdfce69e72f02c64f5"},{"fileUpdateTime":"20210511170002","filePath":"\/information\/c\/202105\/f1027d54a4f343588ae935e9adf53607.pdf","publishDate":"2021-05-11","fileLastVersion":1,"stockAuditNum":"810","auditItemId":"d4bd48cabc254343abf0291edb625fb5","filename":"f1027d54a4f343588ae935e9adf53607.pdf","companyFullName":"江苏宏微科技股份有限公司","fileSize":374621,"StockType":1,"fileTitle":"8-2 会计师关于审核中心意见落实函的回复意见","auditStatus":1,"fileVersion":1,"fileType":6,"MarketType":1,"fileId":"81566542","OPERATION_SEQ":"599b855f2b2e3bbdfce69e72f02c64f5"},{"fileUpdateTime":"20210511170002","filePath":"\/information\/c\/202105\/bb2ccbdaf64242fba3c63472874a90a3.pdf","publishDate":"2021-05-11","fileLastVersion":1,"stockAuditNum":"810","auditItemId":"45661c91b23711eb9f2608f1ea8a847f","filename":"bb2ccbdaf64242fba3c63472874a90a3.pdf","companyFullName":"江苏宏微科技股份有限公司","fileSize":1045163,"StockType":1,"fileTitle":"民生证券股份有限公司关于江苏宏微科技股份有限公司首次公开发行股票并在科创板上市的发行保荐书","auditStatus":2,"fileVersion":2,"fileType":36,"MarketType":1,"fileId":"183301","OPERATION_SEQ":"599b855f2b2e3bbdfce69e72f02c64f5"},{"fileUpdateTime":"20210511170002","filePath":"\/information\/c\/202105\/15b94a71682d465b837f05dcc35c1610.pdf","publishDate":"2021-05-11","fileLastVersion":1,"stockAuditNum":"810","auditItemId":"45661c91b23711eb9f2608f1ea8a847f","filename":"15b94a71682d465b837f05dcc35c1610.pdf","companyFullName":"江苏宏微科技股份有限公司","fileSize":1187910,"StockType":1,"fileTitle":"民生证券股份有限公司关于江苏宏微科技股份有限公司首次公开发行股票并在科创板上市的上市保荐书","auditStatus":2,"fileVersion":2,"fileType":37,"MarketType":1,"fileId":"183300","OPERATION_SEQ":"599b855f2b2e3bbdfce69e72f02c64f5"},{"fileUpdateTime":"20210511170002","filePath":"\/information\/c\/202105\/3d514061b4be4cae9f087e803e85e98c.pdf","publishDate":"2021-05-11","fileLastVersion":1,"stockAuditNum":"810","auditItemId":"45661c91b23711eb9f2608f1ea8a847f","filename":"3d514061b4be4cae9f087e803e85e98c.pdf","companyFullName":"江苏宏微科技股份有限公司","fileSize":9067755,"StockType":1,"fileTitle":"天衡会计师事务所（特殊普通合伙）关于江苏宏微科技股份有限公司首次公开发行股票并在科创板上市的财务报表及审计报告","auditStatus":2,"fileVersion":2,"fileType":32,"MarketType":1,"fileId":"183297","OPERATION_SEQ":"599b855f2b2e3bbdfce69e72f02c64f5"},{"fileUpdateTime":"20210511170002","filePath":"\/information\/c\/202105\/59bea2dc0ceb4e7c8dc0e9c5764e7143.pdf","publishDate":"2021-05-11","fileLastVersion":1,"stockAuditNum":"810","auditItemId":"45661c91b23711eb9f2608f1ea8a847f","filename":"59bea2dc0ceb4e7c8dc0e9c5764e7143.pdf","companyFullName":"江苏宏微科技股份有限公司","fileSize":6469060,"StockType":1,"fileTitle":"北京市环球律师事务所关于江苏宏微科技股份有限公司首次公开发行股票并在科创板上市的法律意见书","auditStatus":2,"fileVersion":2,"fileType":33,"MarketType":1,"fileId":"183296","OPERATION_SEQ":"599b855f2b2e3bbdfce69e72f02c64f5"},{"fileUpdateTime":"20210511170002","filePath":"\/information\/c\/202105\/22013426b5d54b52a9261b962b7e5b93.pdf","publishDate":"2021-05-11","fileLastVersion":1,"stockAuditNum":"810","auditItemId":"45661c91b23711eb9f2608f1ea8a847f","filename":"22013426b5d54b52a9261b962b7e5b93.pdf","companyFullName":"江苏宏微科技股份有限公司","fileSize":10516113,"StockType":1,"fileTitle":"江苏宏微科技股份有限公司科创板首次公开发行股票招股说明书（上会稿）","auditStatus":2,"fileVersion":2,"fileType":30,"MarketType":1,"fileId":"183295","OPERATION_SEQ":"599b855f2b2e3bbdfce69e72f02c64f5"},{"fileUpdateTime":"20210430170000","filePath":"\/information\/c\/202104\/dea5d43fade44cc2943be9cdbbdc607e.pdf","publishDate":"2021-04-30","fileLastVersion":1,"stockAuditNum":"810","auditItemId":"7040c835260c4b18b271a5d1dae69e08","filename":"dea5d43fade44cc2943be9cdbbdc607e.pdf","companyFullName":"江苏宏微科技股份有限公司","fileSize":5064951,"StockType":1,"fileTitle":"8-1 发行人及保荐机构关于第二轮审核问询函的回复","auditStatus":1,"fileVersion":1,"fileType":6,"MarketType":1,"fileId":"81422143","OPERATION_SEQ":"2607738008ef082fb48cf33d489c254e"},{"fileUpdateTime":"20210430170000","filePath":"\/information\/c\/202104\/2ac632ac4ed94e018cc55c8bad02664f.pdf","publishDate":"2021-04-30","fileLastVersion":1,"stockAuditNum":"810","auditItemId":"3ee737f8a72c450ab96c80e927e31008","filename":"2ac632ac4ed94e018cc55c8bad02664f.pdf","companyFullName":"江苏宏微科技股份有限公司","fileSize":2555406,"StockType":1,"fileTitle":"8-2 申报会计师关于第二轮审核问询函的回复","auditStatus":1,"fileVersion":1,"fileType":6,"MarketType":1,"fileId":"81422142","OPERATION_SEQ":"2607738008ef082fb48cf33d489c254e"},{"fileUpdateTime":"20210430170000","filePath":"\/information\/c\/202104\/db38364be9b5450fbdd101d664b502dc.pdf","publishDate":"2021-04-30","fileLastVersion":1,"stockAuditNum":"810","auditItemId":"f061b17593eb4fdfbd77e0c8dfd99972","filename":"db38364be9b5450fbdd101d664b502dc.pdf","companyFullName":"江苏宏微科技股份有限公司","fileSize":1841288,"StockType":1,"fileTitle":"8-3 补充法律意见书（二）","auditStatus":1,"fileVersion":1,"fileType":6,"MarketType":1,"fileId":"81422141","OPERATION_SEQ":"2607738008ef082fb48cf33d489c254e"},{"fileUpdateTime":"20210322170002","filePath":"\/information\/c\/202103\/5dbf352865d9464389e829ff4af2472a.pdf","publishDate":"2021-03-22","fileLastVersion":1,"stockAuditNum":"810","auditItemId":"aa3ee305e01c4b1fa40e11ac14a1a59a","filename":"5dbf352865d9464389e829ff4af2472a.pdf","companyFullName":"江苏宏微科技股份有限公司","fileSize":5693871,"StockType":1,"fileTitle":"8-1 关于江苏宏微科技股份有限公司首次公开发行股票并在科创板上市申请文件的审核问询函的回复","auditStatus":1,"fileVersion":1,"fileType":6,"MarketType":1,"fileId":"80910221","OPERATION_SEQ":"e499a9282b779b0bf08ad04e2a70a683"},{"fileUpdateTime":"20210322170002","filePath":"\/information\/c\/202103\/62808134a1644a96a8b699f96bf78625.pdf","publishDate":"2021-03-22","fileLastVersion":1,"stockAuditNum":"810","auditItemId":"9a532b5c385c4439bdb29362935d794c","filename":"62808134a1644a96a8b699f96bf78625.pdf","companyFullName":"江苏宏微科技股份有限公司","fileSize":5134566,"StockType":1,"fileTitle":"8-2 申报会计师关于审核问询函的回复","auditStatus":1,"fileVersion":1,"fileType":6,"MarketType":1,"fileId":"80910220","OPERATION_SEQ":"e499a9282b779b0bf08ad04e2a70a683"},{"fileUpdateTime":"20210322170002","filePath":"\/information\/c\/202103\/42e557e5e8e14714b287eb038623519f.pdf","publishDate":"2021-03-22","fileLastVersion":1,"stockAuditNum":"810","auditItemId":"fc9d7774c9c44cb793683f69a023ed51","filename":"42e557e5e8e14714b287eb038623519f.pdf","companyFullName":"江苏宏微科技股份有限公司","fileSize":2265743,"StockType":1,"fileTitle":"8-3 补充法律意见书（一）","auditStatus":1,"fileVersion":1,"fileType":6,"MarketType":1,"fileId":"80910219","OPERATION_SEQ":"e499a9282b779b0bf08ad04e2a70a683"},{"fileUpdateTime":"20201222170002","filePath":"\/information\/c\/202012\/1b9b9bff9cff46969bda6645a66c7400.pdf","publishDate":"2020-12-22","fileLastVersion":2,"stockAuditNum":"810","auditItemId":"13e4eadf443411ebb0c708f1ea8a847f","filename":"1b9b9bff9cff46969bda6645a66c7400.pdf","companyFullName":"江苏宏微科技股份有限公司","fileSize":988253,"StockType":1,"fileTitle":"北京市环球律师事务所关于江苏宏微科技股份有限公司首次公开发行股票并在科创板上市的法律意见书","auditStatus":1,"fileVersion":1,"fileType":33,"MarketType":1,"fileId":"161406","OPERATION_SEQ":"e86334eb393c8e30c7899e78da9f9769"},{"fileUpdateTime":"20201222170002","filePath":"\/information\/c\/202012\/4066ca100a0a4d169fb37549704a7ff6.pdf","publishDate":"2020-12-22","fileLastVersion":2,"stockAuditNum":"810","auditItemId":"13e4eadf443411ebb0c708f1ea8a847f","filename":"4066ca100a0a4d169fb37549704a7ff6.pdf","companyFullName":"江苏宏微科技股份有限公司","fileSize":8338127,"StockType":1,"fileTitle":"天衡会计师事务所（特殊普通合伙）关于江苏宏微科技股份有限公司首次公开发行股票并在科创板上市的财务报表及审计报告","auditStatus":1,"fileVersion":1,"fileType":32,"MarketType":1,"fileId":"161402","OPERATION_SEQ":"e86334eb393c8e30c7899e78da9f9769"},{"fileUpdateTime":"20201222170002","filePath":"\/information\/c\/202012\/94633c4e1a35498fa1910665b2c57af4.pdf","publishDate":"2020-12-22","fileLastVersion":2,"stockAuditNum":"810","auditItemId":"13e4eadf443411ebb0c708f1ea8a847f","filename":"94633c4e1a35498fa1910665b2c57af4.pdf","companyFullName":"江苏宏微科技股份有限公司","fileSize":656431,"StockType":1,"fileTitle":"民生证券股份有限公司关于江苏宏微科技股份有限公司首次公开发行股票并在科创板上市的上市保荐书","auditStatus":1,"fileVersion":1,"fileType":37,"MarketType":1,"fileId":"161396","OPERATION_SEQ":"e86334eb393c8e30c7899e78da9f9769"},{"fileUpdateTime":"20201222170002","filePath":"\/information\/c\/202012\/e9f04755ec57457b9bb25d449c400101.pdf","publishDate":"2020-12-22","fileLastVersion":2,"stockAuditNum":"810","auditItemId":"13e4eadf443411ebb0c708f1ea8a847f","filename":"e9f04755ec57457b9bb25d449c400101.pdf","companyFullName":"江苏宏微科技股份有限公司","fileSize":673602,"StockType":1,"fileTitle":"民生证券股份有限公司关于江苏宏微科技股份有限公司首次公开发行股票并在科创板上市的发行保荐书","auditStatus":1,"fileVersion":1,"fileType":36,"MarketType":1,"fileId":"161394","OPERATION_SEQ":"e86334eb393c8e30c7899e78da9f9769"},{"fileUpdateTime":"20201222170002","filePath":"\/information\/c\/202012\/529b5b19d2dd4fa9bd3a26dd5bb710f7.pdf","publishDate":"2020-12-22","fileLastVersion":2,"stockAuditNum":"810","auditItemId":"13e4eadf443411ebb0c708f1ea8a847f","filename":"529b5b19d2dd4fa9bd3a26dd5bb710f7.pdf","companyFullName":"江苏宏微科技股份有限公司","fileSize":5038891,"StockType":1,"fileTitle":"江苏宏微科技股份有限公司科创板首次公开发行股票招股说明书（申报稿）","auditStatus":1,"fileVersion":1,"fileType":30,"MarketType":1,"fileId":"161387","OPERATION_SEQ":"e86334eb393c8e30c7899e78da9f9769"}],"endDate":null,"endPage":null,"objectResult":null,"pageCount":1,"pageNo":1,"pageSize":32,"searchDate":null,"sort":null,"startDate":null,"total":32},"pageNo":null,"pageSize":null,"queryDate":"","result":[{"fileUpdateTime":"20210810173001","filePath":"\/information\/c\/202108\/599c224d1d56485ab2594cbb7880d1fb.pdf","publishDate":"2021-07-06","fileLastVersion":1,"stockAuditNum":"810","auditItemId":"893f416ff9bd11eb9f2608f1ea8a847f","filename":"599c224d1d56485ab2594cbb7880d1fb.pdf","companyFullName":"江苏宏微科技股份有限公司","fileSize":10172385,"StockType":1,"fileTitle":"江苏宏微科技股份有限公司科创板首次公开发行股票招股说明书（注册稿）","auditStatus":5,"fileVersion":4,"fileType":30,"MarketType":1,"fileId":"201168","OPERATION_SEQ":"c27f396abc045c2215d6889f543b109a"},{"fileUpdateTime":"20210810173001","filePath":"\/information\/c\/202108\/cf837f99004d446aa0fb2ad74eda44a1.pdf","publishDate":"2021-07-06","fileLastVersion":1,"stockAuditNum":"810","auditItemId":"893f416ff9bd11eb9f2608f1ea8a847f","filename":"cf837f99004d446aa0fb2ad74eda44a1.pdf","companyFullName":"江苏宏微科技股份有限公司","fileSize":954978,"StockType":1,"fileTitle":"民生证券股份有限公司关于江苏宏微科技股份有限公司首次公开发行股票并在科创板上市的发行保荐书","auditStatus":5,"fileVersion":4,"fileType":36,"MarketType":1,"fileId":"201167","OPERATION_SEQ":"c27f396abc045c2215d6889f543b109a"},{"fileUpdateTime":"20210708170000","filePath":"\/information\/c\/202107\/ff98a241cddb451b942291055c3428e7.pdf","publishDate":"2021-07-06","fileLastVersion":1,"stockAuditNum":"810","auditItemId":"a6b4d162c5571ca32a580ab2de8b1034","filename":"ff98a241cddb451b942291055c3428e7.pdf","companyFullName":"江苏宏微科技股份有限公司","fileSize":383081,"StockType":1,"fileTitle":"关于同意江苏宏微科技股份有限公司首次公开发行股票注册的批复","auditStatus":5,"fileVersion":4,"fileType":35,"MarketType":1,"fileId":"197008a","OPERATION_SEQ":"b845d9aeac87eef43cd894d28daa8c19"},{"fileUpdateTime":"20210706170001","filePath":"\/information\/c\/202107\/72e4fcaa40c441068b5f2a13234d4fa0.pdf","publishDate":"2021-07-06","fileLastVersion":1,"stockAuditNum":"810","auditItemId":"8bc41b27de3811eb9f2608f1ea8a847f","filename":"72e4fcaa40c441068b5f2a13234d4fa0.pdf","companyFullName":"江苏宏微科技股份有限公司","fileSize":10368026,"StockType":1,"fileTitle":"江苏宏微科技股份有限公司科创板首次公开发行股票招股说明书（注册稿）","auditStatus":4,"fileVersion":3,"fileType":30,"MarketType":1,"fileId":"196724","OPERATION_SEQ":"6ee357caad0c12f7f6d354f223f1052c"},{"fileUpdateTime":"20210706170000","filePath":"\/information\/c\/202107\/788223f9815047c083d36a9e6eb1e31f.pdf","publishDate":"2021-07-06","fileLastVersion":1,"stockAuditNum":"810","auditItemId":"f8dafdd4f0754b72a3bdae8fbfca78b9","filename":"788223f9815047c083d36a9e6eb1e31f.pdf","companyFullName":"江苏宏微科技股份有限公司","fileSize":490968,"StockType":1,"fileTitle":"8-3 补充法律意见书（五）","auditStatus":1,"fileVersion":1,"fileType":6,"MarketType":1,"fileId":"82213708","OPERATION_SEQ":"b6e5c7a1257596dfe158631a24755b81"},{"fileUpdateTime":"20210706170000","filePath":"\/information\/c\/202107\/9cf6cdf4ebef42a9ad0d8bdc65001bd9.pdf","publishDate":"2021-07-06","fileLastVersion":1,"stockAuditNum":"810","auditItemId":"cf14dff1bf9e43d8832469ed008ef597","filename":"9cf6cdf4ebef42a9ad0d8bdc65001bd9.pdf","companyFullName":"江苏宏微科技股份有限公司","fileSize":1661881,"StockType":1,"fileTitle":"8-1 发行人及保荐机构关于发行注册环节反馈意见落实函的回复","auditStatus":1,"fileVersion":1,"fileType":6,"MarketType":1,"fileId":"82213707","OPERATION_SEQ":"b6e5c7a1257596dfe158631a24755b81"},{"fileUpdateTime":"20210706170000","filePath":"\/information\/c\/202107\/2ee8e7c97fcf4d8989f742ab2751388e.pdf","publishDate":"2021-07-06","fileLastVersion":1,"stockAuditNum":"810","auditItemId":"7c705ffe18944d379273c162a31a2709","filename":"2ee8e7c97fcf4d8989f742ab2751388e.pdf","companyFullName":"江苏宏微科技股份有限公司","fileSize":1002971,"StockType":1,"fileTitle":"8-2 会计师关于发行注册环节反馈意见落实函的回复","auditStatus":1,"fileVersion":1,"fileType":6,"MarketType":1,"fileId":"82213706","OPERATION_SEQ":"b6e5c7a1257596dfe158631a24755b81"},{"fileUpdateTime":"20210602193001","filePath":"\/information\/c\/202106\/f2e332223b0048c8a2131eb8350fd42d.pdf","publishDate":"2021-06-02","fileLastVersion":2,"stockAuditNum":"810","auditItemId":"de365d91c39511eb9f2608f1ea8a847f","filename":"f2e332223b0048c8a2131eb8350fd42d.pdf","companyFullName":"江苏宏微科技股份有限公司","fileSize":6487234,"StockType":1,"fileTitle":"北京市环球律师事务所关于江苏宏微科技股份有限公司首次公开发行股票并在科创板上市的法律意见书","auditStatus":4,"fileVersion":3,"fileType":33,"MarketType":1,"fileId":"186761","OPERATION_SEQ":"1d877dcb53963b5139caadee89164dd7"},{"fileUpdateTime":"20210602193001","filePath":"\/information\/c\/202106\/247a03c0dd7947a288f1cc7d3d5b3c5c.pdf","publishDate":"2021-06-02","fileLastVersion":2,"stockAuditNum":"810","auditItemId":"de365d91c39511eb9f2608f1ea8a847f","filename":"247a03c0dd7947a288f1cc7d3d5b3c5c.pdf","companyFullName":"江苏宏微科技股份有限公司","fileSize":9016613,"StockType":1,"fileTitle":"天衡会计师事务所（特殊普通合伙）关于江苏宏微科技股份有限公司首次公开发行股票并在科创板上市的财务报表及审计报告","auditStatus":4,"fileVersion":3,"fileType":32,"MarketType":1,"fileId":"186760","OPERATION_SEQ":"1d877dcb53963b5139caadee89164dd7"},{"fileUpdateTime":"20210602193001","filePath":"\/information\/c\/202106\/737af05aa1e74ec6b9f11570aef55e4a.pdf","publishDate":"2021-06-02","fileLastVersion":2,"stockAuditNum":"810","auditItemId":"de365d91c39511eb9f2608f1ea8a847f","filename":"737af05aa1e74ec6b9f11570aef55e4a.pdf","companyFullName":"江苏宏微科技股份有限公司","fileSize":1119016,"StockType":1,"fileTitle":"民生证券股份有限公司关于江苏宏微科技股份有限公司首次公开发行股票并在科创板上市的上市保荐书","auditStatus":4,"fileVersion":3,"fileType":37,"MarketType":1,"fileId":"186759","OPERATION_SEQ":"1d877dcb53963b5139caadee89164dd7"},{"fileUpdateTime":"20210602193001","filePath":"\/information\/c\/202106\/d436966c9cab4bb4b73761dacc381eed.pdf","publishDate":"2021-06-02","fileLastVersion":2,"stockAuditNum":"810","auditItemId":"de365d91c39511eb9f2608f1ea8a847f","filename":"d436966c9cab4bb4b73761dacc381eed.pdf","companyFullName":"江苏宏微科技股份有限公司","fileSize":980222,"StockType":1,"fileTitle":"民生证券股份有限公司关于江苏宏微科技股份有限公司首次公开发行股票并在科创板上市的发行保荐书","auditStatus":4,"fileVersion":3,"fileType":36,"MarketType":1,"fileId":"186758","OPERATION_SEQ":"1d877dcb53963b5139caadee89164dd7"},{"fileUpdateTime":"20210602193001","filePath":"\/information\/c\/202106\/65118a0294ec413cad229b644839c93d.pdf","publishDate":"2021-06-02","fileLastVersion":2,"stockAuditNum":"810","auditItemId":"de365d91c39511eb9f2608f1ea8a847f","filename":"65118a0294ec413cad229b644839c93d.pdf","companyFullName":"江苏宏微科技股份有限公司","fileSize":10489719,"StockType":1,"fileTitle":"江苏宏微科技股份有限公司科创板首次公开发行股票招股说明书（注册稿）","auditStatus":4,"fileVersion":3,"fileType":30,"MarketType":1,"fileId":"186757","OPERATION_SEQ":"1d877dcb53963b5139caadee89164dd7"},{"fileUpdateTime":"20210525170002","filePath":"\/information\/c\/202105\/c96ebfbe2a7b4aa3b5f4e1ab86e7cd49.pdf","publishDate":"2021-05-25","fileLastVersion":1,"stockAuditNum":"810","auditItemId":"7e30e1b0497c44f4961c4a39681a8b03","filename":"c96ebfbe2a7b4aa3b5f4e1ab86e7cd49.pdf","companyFullName":"江苏宏微科技股份有限公司","fileSize":726295,"StockType":1,"fileTitle":"8-2 补充法律意见书（四）","auditStatus":1,"fileVersion":1,"fileType":6,"MarketType":1,"fileId":"81756169","OPERATION_SEQ":"5f835f570a4192324e601c45b5fa0f93"},{"fileUpdateTime":"20210525170002","filePath":"\/information\/c\/202105\/15f499bdaeec4f689b60a30180e8aa79.pdf","publishDate":"2021-05-25","fileLastVersion":1,"stockAuditNum":"810","auditItemId":"1aefe06cab3e4816a2724e05e391e057","filename":"15f499bdaeec4f689b60a30180e8aa79.pdf","companyFullName":"江苏宏微科技股份有限公司","fileSize":1096128,"StockType":1,"fileTitle":"8-1 发行人及保荐机构关于科创板上市委会议意见落实函的回复","auditStatus":1,"fileVersion":1,"fileType":6,"MarketType":1,"fileId":"81756168","OPERATION_SEQ":"5f835f570a4192324e601c45b5fa0f93"},{"fileUpdateTime":"20210511170002","filePath":"\/information\/c\/202105\/cd82936bed7e4f1c830fd68aad4c48ed.pdf","publishDate":"2021-05-11","fileLastVersion":1,"stockAuditNum":"810","auditItemId":"bc9bab4839d54bb69ace30a3ed58ab73","filename":"cd82936bed7e4f1c830fd68aad4c48ed.pdf","companyFullName":"江苏宏微科技股份有限公司","fileSize":1820723,"StockType":1,"fileTitle":"8-1 发行人及保荐机构关于审核中心意见落实函的回复","auditStatus":1,"fileVersion":1,"fileType":6,"MarketType":1,"fileId":"81566543","OPERATION_SEQ":"599b855f2b2e3bbdfce69e72f02c64f5"},{"fileUpdateTime":"20210511170002","filePath":"\/information\/c\/202105\/f1027d54a4f343588ae935e9adf53607.pdf","publishDate":"2021-05-11","fileLastVersion":1,"stockAuditNum":"810","auditItemId":"d4bd48cabc254343abf0291edb625fb5","filename":"f1027d54a4f343588ae935e9adf53607.pdf","companyFullName":"江苏宏微科技股份有限公司","fileSize":374621,"StockType":1,"fileTitle":"8-2 会计师关于审核中心意见落实函的回复意见","auditStatus":1,"fileVersion":1,"fileType":6,"MarketType":1,"fileId":"81566542","OPERATION_SEQ":"599b855f2b2e3bbdfce69e72f02c64f5"},{"fileUpdateTime":"20210511170002","filePath":"\/information\/c\/202105\/bb2ccbdaf64242fba3c63472874a90a3.pdf","publishDate":"2021-05-11","fileLastVersion":1,"stockAuditNum":"810","auditItemId":"45661c91b23711eb9f2608f1ea8a847f","filename":"bb2ccbdaf64242fba3c63472874a90a3.pdf","companyFullName":"江苏宏微科技股份有限公司","fileSize":1045163,"StockType":1,"fileTitle":"民生证券股份有限公司关于江苏宏微科技股份有限公司首次公开发行股票并在科创板上市的发行保荐书","auditStatus":2,"fileVersion":2,"fileType":36,"MarketType":1,"fileId":"183301","OPERATION_SEQ":"599b855f2b2e3bbdfce69e72f02c64f5"},{"fileUpdateTime":"20210511170002","filePath":"\/information\/c\/202105\/15b94a71682d465b837f05dcc35c1610.pdf","publishDate":"2021-05-11","fileLastVersion":1,"stockAuditNum":"810","auditItemId":"45661c91b23711eb9f2608f1ea8a847f","filename":"15b94a71682d465b837f05dcc35c1610.pdf","companyFullName":"江苏宏微科技股份有限公司","fileSize":1187910,"StockType":1,"fileTitle":"民生证券股份有限公司关于江苏宏微科技股份有限公司首次公开发行股票并在科创板上市的上市保荐书","auditStatus":2,"fileVersion":2,"fileType":37,"MarketType":1,"fileId":"183300","OPERATION_SEQ":"599b855f2b2e3bbdfce69e72f02c64f5"},{"fileUpdateTime":"20210511170002","filePath":"\/information\/c\/202105\/3d514061b4be4cae9f087e803e85e98c.pdf","publishDate":"2021-05-11","fileLastVersion":1,"stockAuditNum":"810","auditItemId":"45661c91b23711eb9f2608f1ea8a847f","filename":"3d514061b4be4cae9f087e803e85e98c.pdf","companyFullName":"江苏宏微科技股份有限公司","fileSize":9067755,"StockType":1,"fileTitle":"天衡会计师事务所（特殊普通合伙）关于江苏宏微科技股份有限公司首次公开发行股票并在科创板上市的财务报表及审计报告","auditStatus":2,"fileVersion":2,"fileType":32,"MarketType":1,"fileId":"183297","OPERATION_SEQ":"599b855f2b2e3bbdfce69e72f02c64f5"},{"fileUpdateTime":"20210511170002","filePath":"\/information\/c\/202105\/59bea2dc0ceb4e7c8dc0e9c5764e7143.pdf","publishDate":"2021-05-11","fileLastVersion":1,"stockAuditNum":"810","auditItemId":"45661c91b23711eb9f2608f1ea8a847f","filename":"59bea2dc0ceb4e7c8dc0e9c5764e7143.pdf","companyFullName":"江苏宏微科技股份有限公司","fileSize":6469060,"StockType":1,"fileTitle":"北京市环球律师事务所关于江苏宏微科技股份有限公司首次公开发行股票并在科创板上市的法律意见书","auditStatus":2,"fileVersion":2,"fileType":33,"MarketType":1,"fileId":"183296","OPERATION_SEQ":"599b855f2b2e3bbdfce69e72f02c64f5"},{"fileUpdateTime":"20210511170002","filePath":"\/information\/c\/202105\/22013426b5d54b52a9261b962b7e5b93.pdf","publishDate":"2021-05-11","fileLastVersion":1,"stockAuditNum":"810","auditItemId":"45661c91b23711eb9f2608f1ea8a847f","filename":"22013426b5d54b52a9261b962b7e5b93.pdf","companyFullName":"江苏宏微科技股份有限公司","fileSize":10516113,"StockType":1,"fileTitle":"江苏宏微科技股份有限公司科创板首次公开发行股票招股说明书（上会稿）","auditStatus":2,"fileVersion":2,"fileType":30,"MarketType":1,"fileId":"183295","OPERATION_SEQ":"599b855f2b2e3bbdfce69e72f02c64f5"},{"fileUpdateTime":"20210430170000","filePath":"\/information\/c\/202104\/dea5d43fade44cc2943be9cdbbdc607e.pdf","publishDate":"2021-04-30","fileLastVersion":1,"stockAuditNum":"810","auditItemId":"7040c835260c4b18b271a5d1dae69e08","filename":"dea5d43fade44cc2943be9cdbbdc607e.pdf","companyFullName":"江苏宏微科技股份有限公司","fileSize":5064951,"StockType":1,"fileTitle":"8-1 发行人及保荐机构关于第二轮审核问询函的回复","auditStatus":1,"fileVersion":1,"fileType":6,"MarketType":1,"fileId":"81422143","OPERATION_SEQ":"2607738008ef082fb48cf33d489c254e"},{"fileUpdateTime":"20210430170000","filePath":"\/information\/c\/202104\/2ac632ac4ed94e018cc55c8bad02664f.pdf","publishDate":"2021-04-30","fileLastVersion":1,"stockAuditNum":"810","auditItemId":"3ee737f8a72c450ab96c80e927e31008","filename":"2ac632ac4ed94e018cc55c8bad02664f.pdf","companyFullName":"江苏宏微科技股份有限公司","fileSize":2555406,"StockType":1,"fileTitle":"8-2 申报会计师关于第二轮审核问询函的回复","auditStatus":1,"fileVersion":1,"fileType":6,"MarketType":1,"fileId":"81422142","OPERATION_SEQ":"2607738008ef082fb48cf33d489c254e"},{"fileUpdateTime":"20210430170000","filePath":"\/information\/c\/202104\/db38364be9b5450fbdd101d664b502dc.pdf","publishDate":"2021-04-30","fileLastVersion":1,"stockAuditNum":"810","auditItemId":"f061b17593eb4fdfbd77e0c8dfd99972","filename":"db38364be9b5450fbdd101d664b502dc.pdf","companyFullName":"江苏宏微科技股份有限公司","fileSize":1841288,"StockType":1,"fileTitle":"8-3 补充法律意见书（二）","auditStatus":1,"fileVersion":1,"fileType":6,"MarketType":1,"fileId":"81422141","OPERATION_SEQ":"2607738008ef082fb48cf33d489c254e"},{"fileUpdateTime":"20210322170002","filePath":"\/information\/c\/202103\/5dbf352865d9464389e829ff4af2472a.pdf","publishDate":"2021-03-22","fileLastVersion":1,"stockAuditNum":"810","auditItemId":"aa3ee305e01c4b1fa40e11ac14a1a59a","filename":"5dbf352865d9464389e829ff4af2472a.pdf","companyFullName":"江苏宏微科技股份有限公司","fileSize":5693871,"StockType":1,"fileTitle":"8-1 关于江苏宏微科技股份有限公司首次公开发行股票并在科创板上市申请文件的审核问询函的回复","auditStatus":1,"fileVersion":1,"fileType":6,"MarketType":1,"fileId":"80910221","OPERATION_SEQ":"e499a9282b779b0bf08ad04e2a70a683"},{"fileUpdateTime":"20210322170002","filePath":"\/information\/c\/202103\/62808134a1644a96a8b699f96bf78625.pdf","publishDate":"2021-03-22","fileLastVersion":1,"stockAuditNum":"810","auditItemId":"9a532b5c385c4439bdb29362935d794c","filename":"62808134a1644a96a8b699f96bf78625.pdf","companyFullName":"江苏宏微科技股份有限公司","fileSize":5134566,"StockType":1,"fileTitle":"8-2 申报会计师关于审核问询函的回复","auditStatus":1,"fileVersion":1,"fileType":6,"MarketType":1,"fileId":"80910220","OPERATION_SEQ":"e499a9282b779b0bf08ad04e2a70a683"},{"fileUpdateTime":"20210322170002","filePath":"\/information\/c\/202103\/42e557e5e8e14714b287eb038623519f.pdf","publishDate":"2021-03-22","fileLastVersion":1,"stockAuditNum":"810","auditItemId":"fc9d7774c9c44cb793683f69a023ed51","filename":"42e557e5e8e14714b287eb038623519f.pdf","companyFullName":"江苏宏微科技股份有限公司","fileSize":2265743,"StockType":1,"fileTitle":"8-3 补充法律意见书（一）","auditStatus":1,"fileVersion":1,"fileType":6,"MarketType":1,"fileId":"80910219","OPERATION_SEQ":"e499a9282b779b0bf08ad04e2a70a683"},{"fileUpdateTime":"20201222170002","filePath":"\/information\/c\/202012\/1b9b9bff9cff46969bda6645a66c7400.pdf","publishDate":"2020-12-22","fileLastVersion":2,"stockAuditNum":"810","auditItemId":"13e4eadf443411ebb0c708f1ea8a847f","filename":"1b9b9bff9cff46969bda6645a66c7400.pdf","companyFullName":"江苏宏微科技股份有限公司","fileSize":988253,"StockType":1,"fileTitle":"北京市环球律师事务所关于江苏宏微科技股份有限公司首次公开发行股票并在科创板上市的法律意见书","auditStatus":1,"fileVersion":1,"fileType":33,"MarketType":1,"fileId":"161406","OPERATION_SEQ":"e86334eb393c8e30c7899e78da9f9769"},{"fileUpdateTime":"20201222170002","filePath":"\/information\/c\/202012\/4066ca100a0a4d169fb37549704a7ff6.pdf","publishDate":"2020-12-22","fileLastVersion":2,"stockAuditNum":"810","auditItemId":"13e4eadf443411ebb0c708f1ea8a847f","filename":"4066ca100a0a4d169fb37549704a7ff6.pdf","companyFullName":"江苏宏微科技股份有限公司","fileSize":8338127,"StockType":1,"fileTitle":"天衡会计师事务所（特殊普通合伙）关于江苏宏微科技股份有限公司首次公开发行股票并在科创板上市的财务报表及审计报告","auditStatus":1,"fileVersion":1,"fileType":32,"MarketType":1,"fileId":"161402","OPERATION_SEQ":"e86334eb393c8e30c7899e78da9f9769"},{"fileUpdateTime":"20201222170002","filePath":"\/information\/c\/202012\/94633c4e1a35498fa1910665b2c57af4.pdf","publishDate":"2020-12-22","fileLastVersion":2,"stockAuditNum":"810","auditItemId":"13e4eadf443411ebb0c708f1ea8a847f","filename":"94633c4e1a35498fa1910665b2c57af4.pdf","companyFullName":"江苏宏微科技股份有限公司","fileSize":656431,"StockType":1,"fileTitle":"民生证券股份有限公司关于江苏宏微科技股份有限公司首次公开发行股票并在科创板上市的上市保荐书","auditStatus":1,"fileVersion":1,"fileType":37,"MarketType":1,"fileId":"161396","OPERATION_SEQ":"e86334eb393c8e30c7899e78da9f9769"},{"fileUpdateTime":"20201222170002","filePath":"\/information\/c\/202012\/e9f04755ec57457b9bb25d449c400101.pdf","publishDate":"2020-12-22","fileLastVersion":2,"stockAuditNum":"810","auditItemId":"13e4eadf443411ebb0c708f1ea8a847f","filename":"e9f04755ec57457b9bb25d449c400101.pdf","companyFullName":"江苏宏微科技股份有限公司","fileSize":673602,"StockType":1,"fileTitle":"民生证券股份有限公司关于江苏宏微科技股份有限公司首次公开发行股票并在科创板上市的发行保荐书","auditStatus":1,"fileVersion":1,"fileType":36,"MarketType":1,"fileId":"161394","OPERATION_SEQ":"e86334eb393c8e30c7899e78da9f9769"},{"fileUpdateTime":"20201222170002","filePath":"\/information\/c\/202012\/529b5b19d2dd4fa9bd3a26dd5bb710f7.pdf","publishDate":"2020-12-22","fileLastVersion":2,"stockAuditNum":"810","auditItemId":"13e4eadf443411ebb0c708f1ea8a847f","filename":"529b5b19d2dd4fa9bd3a26dd5bb710f7.pdf","companyFullName":"江苏宏微科技股份有限公司","fileSize":5038891,"StockType":1,"fileTitle":"江苏宏微科技股份有限公司科创板首次公开发行股票招股说明书（申报稿）","auditStatus":1,"fileVersion":1,"fileType":30,"MarketType":1,"fileId":"161387","OPERATION_SEQ":"e86334eb393c8e30c7899e78da9f9769"}],"securityCode":"","texts":null,"type":"","validateCode":""})"#
    );
    let names = FolderNames::standard();
    let disclosure = InfoDisclosure::from_response(&raw_data, &names);
    println!("{:#?}", disclosure);
    let disclosure = disclosure.unwrap();
    // every one of the 32 descriptors under `result` lands in exactly one bucket
    let staged: usize = [
        &disclosure.prospectuses,
        &disclosure.publish_sponsor,
        &disclosure.list_sponsor,
        &disclosure.audit_report,
        &disclosure.legal_opinion,
        &disclosure.others,
    ]
    .iter()
    .map(|s| s.declare.len() + s.meeting.len() + s.register.len())
    .sum();
    let total = staged
        + disclosure.query_and_reply.len()
        + disclosure.register_result_or_audit_terminated.len();
    assert_eq!(total, 32);
    // the type-6 files are the query-and-reply correspondence
    assert_eq!(disclosure.query_and_reply.len(), 13);
    // the type-35 file is the registration result
    assert_eq!(disclosure.register_result_or_audit_terminated.len(), 1);
}
